//! The factory for state operations, bound to a transport handle.

use vstd::prelude::*;

use crate::addr::addr_bytes_ok;
use crate::errors::Error;
use crate::state::allocspi::StateAllocSpiRequest;
use crate::state::delete::StateDeleteRequest;
use crate::state::flush::StateFlushRequest;
use crate::state::get::{StateGetDumpRequest, StateGetRequest};
use crate::state::modify::StateModifyRequest;
use crate::state::sadinfo::StateGetSadInfoRequest;
use crate::transport::Handle;

verus! {

/// Entry point for state operations: binds the transport handle and
/// constructs one request draft per operation kind.
#[derive(Debug)]
pub struct StateHandle {
    handle: Handle,
}

impl StateHandle {
    /// Binds a transport handle.
    pub fn new(handle: Handle) -> (r: StateHandle)
        ensures
            r.handle() == handle,
    {
        StateHandle { handle }
    }

    /// The bound transport handle.
    pub closed spec fn handle(&self) -> Handle {
        self.handle
    }

    /// A mutable reference to the bound transport handle, to script and to
    /// execute against.
    pub fn handle_mut(&mut self) -> (r: &mut Handle)
        ensures
            *r == old(self).handle(),
            final(self).handle() == *final(r),
    {
        &mut self.handle
    }

    /// A draft that adds a state between the given addresses.
    pub fn add(&self, src_addr: Vec<u8>, dst_addr: Vec<u8>) -> (r: Result<
        StateModifyRequest,
        Error,
    >)
        ensures
            addr_bytes_ok(src_addr@) && addr_bytes_ok(dst_addr@) ==> (r matches Ok(q) && ({
                &&& q.message.info.is_fresh(src_addr@, dst_addr@)
                &&& q.message.attrs@.len() == 0
                &&& !q.update
            })),
            !addr_bytes_ok(src_addr@) ==> r == Err::<StateModifyRequest, Error>(
                Error::InvalidIp(src_addr),
            ),
            addr_bytes_ok(src_addr@) && !addr_bytes_ok(dst_addr@) ==> r == Err::<
                StateModifyRequest,
                Error,
            >(Error::InvalidIp(dst_addr)),
    {
        StateModifyRequest::new(false, src_addr, dst_addr)
    }

    /// A draft asking the kernel to reserve an SPI for a state between the
    /// given addresses.
    pub fn alloc_spi(&self, src_addr: Vec<u8>, dst_addr: Vec<u8>) -> (r: Result<
        StateAllocSpiRequest,
        Error,
    >)
        ensures
            addr_bytes_ok(src_addr@) && addr_bytes_ok(dst_addr@) ==> (r matches Ok(q) && ({
                &&& q.message.info.is_fresh(src_addr@, dst_addr@)
                &&& q.message.min == 0
                &&& q.message.max == 0
                &&& q.message.attrs@.len() == 0
            })),
            !addr_bytes_ok(src_addr@) ==> r == Err::<StateAllocSpiRequest, Error>(
                Error::InvalidIp(src_addr),
            ),
            addr_bytes_ok(src_addr@) && !addr_bytes_ok(dst_addr@) ==> r == Err::<
                StateAllocSpiRequest,
                Error,
            >(Error::InvalidIp(dst_addr)),
    {
        StateAllocSpiRequest::new(src_addr, dst_addr)
    }

    /// A draft that deletes the state between the given addresses.
    pub fn delete(&self, src_addr: Vec<u8>, dst_addr: Vec<u8>) -> (r: Result<
        StateDeleteRequest,
        Error,
    >)
        ensures
            addr_bytes_ok(src_addr@) && addr_bytes_ok(dst_addr@) ==> (r matches Ok(q)
                && q.message.is_fresh(src_addr@, dst_addr@)),
            !addr_bytes_ok(src_addr@) ==> r == Err::<StateDeleteRequest, Error>(
                Error::InvalidIp(src_addr),
            ),
            addr_bytes_ok(src_addr@) && !addr_bytes_ok(dst_addr@) ==> r == Err::<
                StateDeleteRequest,
                Error,
            >(Error::InvalidIp(dst_addr)),
    {
        StateDeleteRequest::new(src_addr, dst_addr)
    }

    /// A draft that flushes all states.
    pub fn flush(&self) -> (r: StateFlushRequest)
        ensures
            r.message.proto == 0,
    {
        StateFlushRequest::new()
    }

    /// A draft that gets the state between the given addresses.
    pub fn get(&self, src_addr: Vec<u8>, dst_addr: Vec<u8>) -> (r: Result<StateGetRequest, Error>)
        ensures
            addr_bytes_ok(src_addr@) && addr_bytes_ok(dst_addr@) ==> (r matches Ok(q)
                && q.message.is_fresh(src_addr@, dst_addr@)),
            !addr_bytes_ok(src_addr@) ==> r == Err::<StateGetRequest, Error>(
                Error::InvalidIp(src_addr),
            ),
            addr_bytes_ok(src_addr@) && !addr_bytes_ok(dst_addr@) ==> r == Err::<
                StateGetRequest,
                Error,
            >(Error::InvalidIp(dst_addr)),
    {
        StateGetRequest::new(src_addr, dst_addr)
    }

    /// A draft that dumps all states.
    pub fn get_dump(&self) -> (r: StateGetDumpRequest)
        ensures
            r.message.attrs@.len() == 0,
    {
        StateGetDumpRequest::new()
    }

    /// A draft that reads state-database statistics.
    pub fn get_sadinfo(&self) -> (r: StateGetSadInfoRequest)
        ensures
            r.message.flags == u32::MAX,
    {
        StateGetSadInfoRequest::new()
    }

    /// A draft that updates a state between the given addresses.
    pub fn update(&self, src_addr: Vec<u8>, dst_addr: Vec<u8>) -> (r: Result<
        StateModifyRequest,
        Error,
    >)
        ensures
            addr_bytes_ok(src_addr@) && addr_bytes_ok(dst_addr@) ==> (r matches Ok(q) && ({
                &&& q.message.info.is_fresh(src_addr@, dst_addr@)
                &&& q.message.attrs@.len() == 0
                &&& q.update
            })),
            !addr_bytes_ok(src_addr@) ==> r == Err::<StateModifyRequest, Error>(
                Error::InvalidIp(src_addr),
            ),
            addr_bytes_ok(src_addr@) && !addr_bytes_ok(dst_addr@) ==> r == Err::<
                StateModifyRequest,
                Error,
            >(Error::InvalidIp(dst_addr)),
    {
        StateModifyRequest::new(true, src_addr, dst_addr)
    }
}

} // verus!
