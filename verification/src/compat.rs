use crate::capability::{Capability, Unsupported};
use vstd::prelude::*;

verus! {

/// A backend together with the capability handles it granted and the
/// runtime that drives its asynchronous operations.
///
/// `B` is the backend, `R`, `W`, `S` and `F` the handles of the reader,
/// writer, seekable-writer and full capabilities, `H` the runtime handle.
/// Which capabilities are present is fixed when the value is built.
#[derive(Clone, Debug)]
pub struct VfsCompat<B, R, W, S, F, H> {
    be: B,
    reader: Option<R>,
    writer: Option<W>,
    writer_seek: Option<S>,
    full: Option<F>,
    rt: H,
}

impl<B, R, W, S, F, H> VfsCompat<B, R, W, S, F, H> {
    /// The backend.
    pub closed spec fn spec_backend(&self) -> B {
        self.be
    }

    /// The runtime handle.
    pub closed spec fn spec_runtime(&self) -> H {
        self.rt
    }

    /// The reader handle, if the backend granted one.
    pub closed spec fn spec_reader(&self) -> Option<R> {
        self.reader
    }

    /// The writer handle, if the backend granted one.
    pub closed spec fn spec_writer(&self) -> Option<W> {
        self.writer
    }

    /// The seekable-writer handle, if the backend granted one.
    pub closed spec fn spec_writer_seek(&self) -> Option<S> {
        self.writer_seek
    }

    /// The full-access handle, if the backend granted one.
    pub closed spec fn spec_full(&self) -> Option<F> {
        self.full
    }

    /// Whether capability `c` was granted.
    pub open spec fn supports(&self, c: Capability) -> bool {
        match c {
            Capability::Reader => self.spec_reader() is Some,
            Capability::Writer => self.spec_writer() is Some,
            Capability::WriterSeek => self.spec_writer_seek() is Some,
            Capability::Full => self.spec_full() is Some,
        }
    }

    /// Builds the compat layer from a runtime handle, a backend and the
    /// answers the backend gave when asked for each capability.
    pub fn new(
        rt: H,
        be: B,
        reader: Option<R>,
        writer: Option<W>,
        writer_seek: Option<S>,
        full: Option<F>,
    ) -> (c: Self)
        ensures
            c.spec_runtime() == rt,
            c.spec_backend() == be,
            c.spec_reader() == reader,
            c.spec_writer() == writer,
            c.spec_writer_seek() == writer_seek,
            c.spec_full() == full,
            c.supports(Capability::Reader) == reader is Some,
            c.supports(Capability::Writer) == writer is Some,
            c.supports(Capability::WriterSeek) == writer_seek is Some,
            c.supports(Capability::Full) == full is Some,
    {
        VfsCompat { be, reader, writer, writer_seek, full, rt }
    }
    /// The backend.
    pub fn backend(&self) -> (b: &B)
        ensures
            *b == self.spec_backend(),
    {
        &self.be
    }

    /// The runtime handle that drives the backend's operations.
    pub fn runtime(&self) -> (h: &H)
        ensures
            *h == self.spec_runtime(),
    {
        &self.rt
    }

    /// The reader handle, or `Unsupported` naming the reader capability
    /// where the backend granted none.
    pub fn reader(&self) -> (r: Result<&R, Unsupported>)
        ensures
            r is Ok <==> self.spec_reader() is Some,
            r matches Ok(h) ==> self.spec_reader() == Some(*h),
            r matches Err(e) ==> e.capability == Capability::Reader,
    {
        match &self.reader {
            Some(h) => Ok(h),
            None => Err(Unsupported::new(Capability::Reader)),
        }
    }

    /// The writer handle, or `Unsupported` naming the writer capability
    /// where the backend granted none.
    pub fn writer(&self) -> (r: Result<&W, Unsupported>)
        ensures
            r is Ok <==> self.spec_writer() is Some,
            r matches Ok(h) ==> self.spec_writer() == Some(*h),
            r matches Err(e) ==> e.capability == Capability::Writer,
    {
        match &self.writer {
            Some(h) => Ok(h),
            None => Err(Unsupported::new(Capability::Writer)),
        }
    }

    /// The full-access handle, or `Unsupported` naming the full capability
    /// where the backend granted none.
    pub fn full(&self) -> (r: Result<&F, Unsupported>)
        ensures
            r is Ok <==> self.spec_full() is Some,
            r matches Ok(h) ==> self.spec_full() == Some(*h),
            r matches Err(e) ==> e.capability == Capability::Full,
    {
        match &self.full {
            Some(h) => Ok(h),
            None => Err(Unsupported::new(Capability::Full)),
        }
    }

    /// The seekable-writer handle, or `Unsupported` naming the
    /// seekable-writer capability where the backend granted none.
    pub fn writer_seek(&self) -> (r: Result<&S, Unsupported>)
        ensures
            r is Ok <==> self.spec_writer_seek() is Some,
            r matches Ok(h) ==> self.spec_writer_seek() == Some(*h),
            r matches Err(e) ==> e.capability == Capability::WriterSeek,
    {
        match &self.writer_seek {
            Some(h) => Ok(h),
            None => Err(Unsupported::new(Capability::WriterSeek)),
        }
    }

    /// Whether capability `c` was granted.
    pub fn has(&self, c: Capability) -> (b: bool)
        ensures
            b == self.supports(c),
    {
        match c {
            Capability::Reader => self.reader.is_some(),
            Capability::Writer => self.writer.is_some(),
            Capability::WriterSeek => self.writer_seek.is_some(),
            Capability::Full => self.full.is_some(),
        }
    }

    /// Offers `this` as the reader interface: `Some(this)` where the
    /// reader capability was granted, `None` where it was not.
    pub fn offer_reader<T>(&self, this: T) -> (r: Option<T>)
        ensures
            r == (if self.supports(Capability::Reader) { Some(this) } else { None }),
    {
        if self.reader.is_some() {
            Some(this)
        } else {
            None
        }
    }

    /// Offers `this` as the writer interface: `Some(this)` where the
    /// writer capability was granted, `None` where it was not.
    pub fn offer_writer<T>(&self, this: T) -> (r: Option<T>)
        ensures
            r == (if self.supports(Capability::Writer) { Some(this) } else { None }),
    {
        if self.writer.is_some() {
            Some(this)
        } else {
            None
        }
    }

    /// Offers `this` as the seekable-writer interface: `Some(this)` where
    /// that capability was granted, `None` where it was not.
    pub fn offer_writer_seek<T>(&self, this: T) -> (r: Option<T>)
        ensures
            r == (if self.supports(Capability::WriterSeek) { Some(this) } else { None }),
    {
        if self.writer_seek.is_some() {
            Some(this)
        } else {
            None
        }
    }

    /// Offers `this` as the full interface: `Some(this)` where the full
    /// capability was granted, `None` where it was not.
    pub fn offer_full<T>(&self, this: T) -> (r: Option<T>)
        ensures
            r == (if self.supports(Capability::Full) { Some(this) } else { None }),
    {
        if self.full.is_some() {
            Some(this)
        } else {
            None
        }
    }
}

/// A capability counts as supported, which is what the `offer_*` functions
/// go by, exactly when its handle is present, which is what the accessors
/// go by: a capability is offered to callers exactly when using it succeeds.
pub proof fn lemma_offer_agrees_with_access<B, R, W, S, F, H>(
    v: VfsCompat<B, R, W, S, F, H>,
    c: Capability,
)
    ensures
        v.supports(c) <==> match c {
            Capability::Reader => v.spec_reader() is Some,
            Capability::Writer => v.spec_writer() is Some,
            Capability::WriterSeek => v.spec_writer_seek() is Some,
            Capability::Full => v.spec_full() is Some,
        },
{
}

} // verus!
