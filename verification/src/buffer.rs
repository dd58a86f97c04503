//! The committed pixel content of a surface, as the renderer consumes it.
use vstd::prelude::*;

verus! {

/// Numeric identity of a client buffer allocation.
#[derive(Debug, Clone, Copy, PartialEq, Eq, Structural)]
pub struct BufferId(pub u64);

impl BufferId {
    pub fn get(self) -> (r: u64)
        ensures
            r == self.0,
    {
        self.0
    }
}

/// Identity of a buffer together with the generation of its backing storage.
#[derive(Debug, Clone, Copy, PartialEq, Eq, Structural)]
pub struct BufferIdentity {
    pub id: BufferId,
    pub generation: u64,
}

impl BufferIdentity {
    pub fn id(&self) -> (r: BufferId)
        ensures
            r == self.id,
    {
        self.id
    }
}

/// A non-empty buffer extent in pixels.
#[derive(Debug, Clone, Copy, PartialEq, Eq, Structural)]
pub struct BufferSize {
    pub width: u32,
    pub height: u32,
}

impl BufferSize {
    /// A size is only valid when both dimensions are non-zero.
    pub fn new(width: u32, height: u32) -> (r: Option<BufferSize>)
        ensures
            r == (if width == 0 || height == 0 {
                None
            } else {
                Some(BufferSize { width, height })
            }),
    {
        if width == 0 || height == 0 {
            None
        } else {
            Some(BufferSize { width, height })
        }
    }
}

/// Where the committed pixels live.
#[derive(Debug, Clone, Copy, PartialEq, Eq, Structural)]
pub enum SurfaceBufferSource {
    Shm,
    Dmabuf,
}

/// Description of an imported DMA-BUF.
#[derive(Debug, Clone, Copy, PartialEq, Eq, Structural)]
pub struct DmabufBufferHandle {
    pub format: u32,
    pub modifier: u64,
    pub plane_count: u32,
}

#[derive(Debug, Clone)]
pub enum CommittedBufferContent {
    /// A CPU snapshot of shared-memory pixels, one `u32` per pixel.
    Shm(Vec<u32>),
    Dmabuf(DmabufBufferHandle),
}

/// Committed surface pixels: an identity, an extent and the content.
#[derive(Debug, Clone)]
pub struct CommittedSurfaceBuffer {
    pub identity: BufferIdentity,
    pub size: BufferSize,
    pub content: CommittedBufferContent,
}

impl CommittedSurfaceBuffer {
    pub open spec fn spec_source(&self) -> SurfaceBufferSource {
        match self.content {
            CommittedBufferContent::Shm(_) => SurfaceBufferSource::Shm,
            CommittedBufferContent::Dmabuf(_) => SurfaceBufferSource::Dmabuf,
        }
    }

    /// A shared-memory snapshot of `pixels`.
    pub fn shm_snapshot(identity: BufferIdentity, size: BufferSize, pixels: Vec<u32>) -> (r: Self)
        ensures
            r.identity == identity,
            r.size == size,
            r.content matches CommittedBufferContent::Shm(p) && p@ == pixels@,
    {
        CommittedSurfaceBuffer { identity, size, content: CommittedBufferContent::Shm(pixels) }
    }

    /// An imported DMA-BUF.
    pub fn dmabuf_handle(identity: BufferIdentity, size: BufferSize, handle: DmabufBufferHandle) -> (r:
        Self)
        ensures
            r.identity == identity,
            r.size == size,
            r.content == CommittedBufferContent::Dmabuf(handle),
    {
        CommittedSurfaceBuffer { identity, size, content: CommittedBufferContent::Dmabuf(handle) }
    }

    pub fn buffer_id(&self) -> (r: BufferId)
        ensures
            r == self.identity.id,
    {
        self.identity.id
    }

    pub fn buffer_identity(&self) -> (r: &BufferIdentity)
        ensures
            *r == self.identity,
    {
        &self.identity
    }

    pub fn source(&self) -> (r: SurfaceBufferSource)
        ensures
            r == self.spec_source(),
    {
        match &self.content {
            CommittedBufferContent::Shm(_) => SurfaceBufferSource::Shm,
            CommittedBufferContent::Dmabuf(_) => SurfaceBufferSource::Dmabuf,
        }
    }

    pub fn cpu_pixels(&self) -> (r: Option<&[u32]>)
        ensures
            match self.content {
                CommittedBufferContent::Shm(p) => r matches Some(s) && s@ == p@,
                CommittedBufferContent::Dmabuf(_) => r is None,
            },
    {
        match &self.content {
            CommittedBufferContent::Shm(pixels) => Some(pixels.as_slice()),
            CommittedBufferContent::Dmabuf(_) => None,
        }
    }

    pub fn dmabuf_handle_ref(&self) -> (r: Option<&DmabufBufferHandle>)
        ensures
            match self.content {
                CommittedBufferContent::Shm(_) => r is None,
                CommittedBufferContent::Dmabuf(h) => r == Some(&h),
            },
    {
        match &self.content {
            CommittedBufferContent::Shm(_) => None,
            CommittedBufferContent::Dmabuf(handle) => Some(handle),
        }
    }

    pub fn size(&self) -> (r: BufferSize)
        ensures
            r == self.size,
    {
        self.size
    }
}

} // verus!
