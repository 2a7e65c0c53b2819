//! The io_uring opcode numbers the library refers to, as the io-uring crate
//! defines them.

use vstd::prelude::*;

verus! {

/// `io_uring::opcode::Read::CODE`: the crate defines it as `sys::IORING_OP_READ`, 22.
#[verifier::external_body]
pub(crate) fn opcode_read() -> (r: u8)
    ensures
        r == 22,
{
    io_uring::opcode::Read::CODE
}

/// `io_uring::opcode::Write::CODE`: the crate defines it as `sys::IORING_OP_WRITE`, 23.
#[verifier::external_body]
pub(crate) fn opcode_write() -> (r: u8)
    ensures
        r == 23,
{
    io_uring::opcode::Write::CODE
}

/// `io_uring::opcode::PollAdd::CODE`: the crate defines it as `sys::IORING_OP_POLL_ADD`, 6.
#[verifier::external_body]
pub(crate) fn opcode_poll_add() -> (r: u8)
    ensures
        r == 6,
{
    io_uring::opcode::PollAdd::CODE
}

/// `io_uring::opcode::Recv::CODE`: the crate defines it as `sys::IORING_OP_RECV`, 27.
#[verifier::external_body]
pub(crate) fn opcode_recv() -> (r: u8)
    ensures
        r == 27,
{
    io_uring::opcode::Recv::CODE
}

/// `io_uring::opcode::Accept::CODE`: the crate defines it as `sys::IORING_OP_ACCEPT`, 13.
#[verifier::external_body]
pub(crate) fn opcode_accept() -> (r: u8)
    ensures
        r == 13,
{
    io_uring::opcode::Accept::CODE
}

/// `io_uring::opcode::SendZc::CODE`: the crate defines it as `sys::IORING_OP_SEND_ZC`, 47.
#[verifier::external_body]
pub(crate) fn opcode_send_zc() -> (r: u8)
    ensures
        r == 47,
{
    io_uring::opcode::SendZc::CODE
}

/// `io_uring::opcode::Timeout::CODE`: the crate defines it as `sys::IORING_OP_TIMEOUT`, 11.
#[verifier::external_body]
pub(crate) fn opcode_timeout() -> (r: u8)
    ensures
        r == 11,
{
    io_uring::opcode::Timeout::CODE
}

/// `io_uring::opcode::AsyncCancel::CODE`: the crate defines it as `sys::IORING_OP_ASYNC_CANCEL`, 14.
#[verifier::external_body]
pub(crate) fn opcode_async_cancel() -> (r: u8)
    ensures
        r == 14,
{
    io_uring::opcode::AsyncCancel::CODE
}

/// `io_uring::opcode::Send::CODE`: the crate defines it as `sys::IORING_OP_SEND`, 26.
#[verifier::external_body]
pub(crate) fn opcode_send() -> (r: u8)
    ensures
        r == 26,
{
    io_uring::opcode::Send::CODE
}

} // verus!
