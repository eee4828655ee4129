//! Handles: records that name operating-system descriptors and say what they
//! stand for.

use crate::rutabaga_utils::MesaError;
use crate::rutabaga_utils::RawDescriptor;
use crate::rutabaga_utils::RutabagaError;
use crate::rutabaga_utils::RutabagaResult;
use vstd::prelude::*;

verus! {

/// A descriptor for memory or for a synchronization object, with its type.
#[derive(Clone, Copy, Debug, PartialEq, Eq, Structural)]
pub struct MesaHandle {
    pub os_handle: RawDescriptor,
    pub handle_type: u32,
}

/// An Android hardware buffer: its descriptors and its metadata.
#[derive(Debug, PartialEq, Eq)]
pub struct AhbInfo {
    pub fds: Vec<RawDescriptor>,
    pub metadata: Vec<u8>,
}

/// Either kind of handle.
#[derive(Debug, PartialEq, Eq)]
pub enum RutabagaHandle {
    MesaHandle(MesaHandle),
    AhbInfo(AhbInfo),
}

impl AhbInfo {
    /// Two records say the same: the same descriptors in the same order and
    /// the same metadata.
    pub open spec fn spec_same(&self, other: &AhbInfo) -> bool {
        self.fds@ == other.fds@ && self.metadata@ == other.metadata@
    }

    /// The descriptors that all duplications produced, if none failed.
    pub open spec fn spec_all_duplicated(duplicates: Seq<Option<RawDescriptor>>) -> bool {
        forall|i: int| 0 <= i < duplicates.len() ==> (#[trigger] duplicates[i]).is_some()
    }

    /// Builds the clone of a hardware buffer from the outcome of duplicating
    /// each of its descriptors, in order: `None` stands for a duplication
    /// that failed.
    ///
    /// The clone exists when there is an outcome for each descriptor and
    /// every duplication succeeded, and then holds the new descriptors and a
    /// copy of the metadata. Anything else is `InvalidMesaHandle`.
    pub fn try_clone(&self, duplicates: &Vec<Option<RawDescriptor>>) -> (r: RutabagaResult<AhbInfo>)
        ensures
            r.is_ok() <==> duplicates@.len() == self.fds@.len() && Self::spec_all_duplicated(
                duplicates@,
            ),
            r.is_err() ==> r == Err::<AhbInfo, RutabagaError>(
                RutabagaError::MesaError(MesaError::InvalidMesaHandle),
            ),
            r.is_ok() ==> r.unwrap().metadata@ == self.metadata@ && r.unwrap().fds@.len()
                == self.fds@.len() && forall|i: int|
                0 <= i < duplicates@.len() ==> duplicates@[i] == Some(
                    #[trigger] r.unwrap().fds@[i],
                ),
    {
        let mut cloned_fds: Vec<RawDescriptor> = Vec::new();
        let n: usize = duplicates.len();
        if n != self.fds.len() {
            return Err(RutabagaError::MesaError(MesaError::InvalidMesaHandle));
        }
        let mut i: usize = 0;
        while i < n
            invariant
                n == duplicates@.len(),
                i <= n,
                cloned_fds@.len() == i,
                forall|j: int|
                    #![trigger duplicates@[j]]
                    #![trigger cloned_fds@[j]]
                    0 <= j < i ==> duplicates@[j] == Some(cloned_fds@[j]),
            decreases n - i,
        {
            match duplicates[i] {
                Some(fd) => {
                    cloned_fds.push(fd);
                },
                None => {
                    return Err(RutabagaError::MesaError(MesaError::InvalidMesaHandle));
                },
            }
            i += 1;
        }
        let metadata = copy_bytes(&self.metadata);
        Ok(AhbInfo { fds: cloned_fds, metadata })
    }

    /// A second record that names the same descriptors.
    pub fn share(&self) -> (r: AhbInfo)
        ensures
            r.spec_same(self),
    {
        let mut fds: Vec<RawDescriptor> = Vec::new();
        let n: usize = self.fds.len();
        let mut i: usize = 0;
        while i < n
            invariant
                n == self.fds@.len(),
                i <= n,
                fds@ == self.fds@.take(i as int),
            decreases n - i,
        {
            fds.push(self.fds[i]);
            i += 1;
            assert(fds@ =~= self.fds@.take(i as int));
        }
        assert(self.fds@.take(n as int) =~= self.fds@);
        AhbInfo { fds, metadata: copy_bytes(&self.metadata) }
    }
}

/// A copy of a byte vector.
pub fn copy_bytes(bytes: &Vec<u8>) -> (r: Vec<u8>)
    ensures
        r@ == bytes@,
{
    let mut out: Vec<u8> = Vec::new();
    let n: usize = bytes.len();
    let mut i: usize = 0;
    while i < n
        invariant
            n == bytes@.len(),
            i <= n,
            out@ == bytes@.take(i as int),
        decreases n - i,
    {
        out.push(bytes[i]);
        i += 1;
        assert(out@ =~= bytes@.take(i as int));
    }
    assert(bytes@.take(n as int) =~= bytes@);
    out
}

impl RutabagaHandle {
    /// Two handles say the same.
    pub open spec fn spec_same(&self, other: &RutabagaHandle) -> bool {
        match (self, other) {
            (RutabagaHandle::MesaHandle(a), RutabagaHandle::MesaHandle(b)) => a == b,
            (RutabagaHandle::AhbInfo(a), RutabagaHandle::AhbInfo(b)) => a.spec_same(b),
            _ => false,
        }
    }

    /// The descriptor handle inside, if this is one.
    pub open spec fn spec_as_mesa_handle(&self) -> Option<MesaHandle> {
        match self {
            RutabagaHandle::MesaHandle(handle) => Some(*handle),
            _ => None,
        }
    }

    /// Wraps a descriptor handle.
    pub fn from_mesa_handle(value: MesaHandle) -> (r: RutabagaHandle)
        ensures
            r == RutabagaHandle::MesaHandle(value),
    {
        RutabagaHandle::MesaHandle(value)
    }

    /// Wraps a hardware buffer.
    pub fn from_ahb_info(value: AhbInfo) -> (r: RutabagaHandle)
        ensures
            r == RutabagaHandle::AhbInfo(value),
    {
        RutabagaHandle::AhbInfo(value)
    }

    /// Unwraps a descriptor handle; any other kind is `InvalidMesaHandle`.
    pub fn into_mesa_handle(self) -> (r: Result<MesaHandle, MesaError>)
        ensures
            r == match self {
                RutabagaHandle::MesaHandle(h) => Ok::<MesaHandle, MesaError>(h),
                _ => Err::<MesaHandle, MesaError>(MesaError::InvalidMesaHandle),
            },
    {
        match self {
            RutabagaHandle::MesaHandle(h) => Ok(h),
            _ => Err(MesaError::InvalidMesaHandle),
        }
    }

    /// Unwraps a hardware buffer; any other kind is `InvalidMesaHandle`.
    pub fn into_ahb_info(self) -> (r: Result<AhbInfo, MesaError>)
        ensures
            r == match self {
                RutabagaHandle::AhbInfo(h) => Ok::<AhbInfo, MesaError>(h),
                _ => Err::<AhbInfo, MesaError>(MesaError::InvalidMesaHandle),
            },
    {
        match self {
            RutabagaHandle::AhbInfo(h) => Ok(h),
            _ => Err(MesaError::InvalidMesaHandle),
        }
    }

    /// The descriptor handle inside, if this is one.
    pub fn as_mesa_handle(&self) -> (r: Option<&MesaHandle>)
        ensures
            r == match self {
                RutabagaHandle::MesaHandle(handle) => Some(handle),
                _ => None,
            },
    {
        match self {
            RutabagaHandle::MesaHandle(handle) => Some(handle),
            _ => None,
        }
    }

    /// Builds the clone of a handle from the outcome of duplicating each of
    /// its descriptors, in order: `None` stands for a duplication that
    /// failed. A descriptor handle has one descriptor.
    ///
    /// The clone exists when there is an outcome for each descriptor and
    /// every duplication succeeded, and then is of the same kind, with the
    /// new descriptors in place of the old. Anything else is
    /// `InvalidMesaHandle`.
    pub fn try_clone(&self, duplicates: &Vec<Option<RawDescriptor>>) -> (r: RutabagaResult<
        RutabagaHandle,
    >)
        ensures
            match self {
                RutabagaHandle::MesaHandle(handle) => r == if duplicates@.len() == 1
                    && duplicates@[0] is Some {
                    Ok::<RutabagaHandle, RutabagaError>(
                        RutabagaHandle::MesaHandle(
                            MesaHandle {
                                os_handle: duplicates@[0].unwrap(),
                                handle_type: handle.handle_type,
                            },
                        ),
                    )
                } else {
                    Err::<RutabagaHandle, RutabagaError>(
                        RutabagaError::MesaError(MesaError::InvalidMesaHandle),
                    )
                },
                RutabagaHandle::AhbInfo(info) => {
                    &&& r.is_ok() <==> duplicates@.len() == info.fds@.len()
                        && AhbInfo::spec_all_duplicated(duplicates@)
                    &&& r.is_err() ==> r == Err::<RutabagaHandle, RutabagaError>(
                        RutabagaError::MesaError(MesaError::InvalidMesaHandle),
                    )
                    &&& r.is_ok() ==> r.unwrap() is AhbInfo && r.unwrap()->AhbInfo_0.metadata@
                        == info.metadata@ && r.unwrap()->AhbInfo_0.fds@.len() == info.fds@.len()
                        && forall|i: int|
                        0 <= i < duplicates@.len() ==> duplicates@[i] == Some(
                            #[trigger] r.unwrap()->AhbInfo_0.fds@[i],
                        )
                },
            },
    {
        match self {
            RutabagaHandle::MesaHandle(handle) => {
                if duplicates.len() != 1 {
                    return Err(RutabagaError::MesaError(MesaError::InvalidMesaHandle));
                }
                match duplicates[0] {
                    Some(os_handle) => Ok(
                        RutabagaHandle::MesaHandle(
                            MesaHandle { os_handle, handle_type: handle.handle_type },
                        ),
                    ),
                    None => Err(RutabagaError::MesaError(MesaError::InvalidMesaHandle)),
                }
            },
            RutabagaHandle::AhbInfo(info) => {
                let cloned = info.try_clone(duplicates)?;
                Ok(RutabagaHandle::AhbInfo(cloned))
            },
        }
    }

    /// A second handle that names the same descriptors.
    pub fn share(&self) -> (r: RutabagaHandle)
        ensures
            r.spec_same(self),
            self is MesaHandle ==> r == *self,
    {
        match self {
            RutabagaHandle::MesaHandle(handle) => RutabagaHandle::MesaHandle(*handle),
            RutabagaHandle::AhbInfo(info) => RutabagaHandle::AhbInfo(info.share()),
        }
    }
}

} // verus!
