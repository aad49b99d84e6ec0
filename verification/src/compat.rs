//! Translating the errors of the microkernel's services into Linux error numbers.
use vstd::prelude::*;
use crate::abi::{
    errno, errno_spec, EAGAIN, EBADF, EBUSY, EEXIST, EFAULT, EINTR, EINVAL, EIO, ENAMETOOLONG,
    ENOENT, ENOMEM, ENOSYS, ENOTTY, EPERM, ETIMEDOUT,
};

verus! {

/// An error that a microkernel service reports.
#[derive(Debug, Clone, Copy, PartialEq, Eq)]
pub enum Error {
    OutOfMemory,
    CNodeFull,
    InvalidArgs,
    InvalidConfig,
    InvalidCapability,
    InvalidMethod,
    InvalidType,
    InvalidAddress,
    MessageTooLong,
    InvalidSlot,
    SlotNotEmpty,
    NotFound,
    AlreadyExists,
    ResourceBusy,
    WouldBlock,
    Interrupted,
    Timeout,
    PermissionDenied,
    NotSupported,
    NotImplemented,
    IoError,
    DeviceError,
    InternalError,
    Generic,
    /// Any error without a Linux counterpart.
    Other,
}

/// The Linux error number that stands for a service error.
pub open spec fn errno_of(err: Error) -> u32 {
    match err {
        Error::OutOfMemory | Error::CNodeFull => ENOMEM,
        Error::InvalidArgs | Error::InvalidConfig => EINVAL,
        Error::InvalidCapability | Error::InvalidMethod => EINVAL,
        Error::InvalidType => ENOTTY,
        Error::InvalidAddress => EFAULT,
        Error::MessageTooLong => ENAMETOOLONG,
        Error::InvalidSlot => EBADF,
        Error::SlotNotEmpty => EEXIST,
        Error::NotFound => ENOENT,
        Error::AlreadyExists => EEXIST,
        Error::ResourceBusy => EBUSY,
        Error::WouldBlock => EAGAIN,
        Error::Interrupted => EINTR,
        Error::Timeout => ETIMEDOUT,
        Error::PermissionDenied => EPERM,
        Error::NotSupported | Error::NotImplemented => ENOSYS,
        Error::IoError | Error::DeviceError | Error::InternalError | Error::Generic => EIO,
        Error::Other => ENOSYS,
    }
}

/// The negated Linux error number for a service error.
pub fn map_error_to_errno(err: Error) -> (r: isize)
    ensures
        r == errno_spec(errno_of(err)),
        r < 0,
{
    match err {
        Error::OutOfMemory | Error::CNodeFull => errno(ENOMEM),
        Error::InvalidArgs | Error::InvalidConfig => errno(EINVAL),
        Error::InvalidCapability | Error::InvalidMethod => errno(EINVAL),
        Error::InvalidType => errno(ENOTTY),
        Error::InvalidAddress => errno(EFAULT),
        Error::MessageTooLong => errno(ENAMETOOLONG),
        Error::InvalidSlot => errno(EBADF),
        Error::SlotNotEmpty => errno(EEXIST),
        Error::NotFound => errno(ENOENT),
        Error::AlreadyExists => errno(EEXIST),
        Error::ResourceBusy => errno(EBUSY),
        Error::WouldBlock => errno(EAGAIN),
        Error::Interrupted => errno(EINTR),
        Error::Timeout => errno(ETIMEDOUT),
        Error::PermissionDenied => errno(EPERM),
        Error::NotSupported | Error::NotImplemented => errno(ENOSYS),
        Error::IoError | Error::DeviceError | Error::InternalError | Error::Generic => errno(EIO),
        Error::Other => errno(ENOSYS),
    }
}

} // verus!
