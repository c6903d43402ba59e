use std::marker::PhantomData;
use vstd::prelude::*;

verus! {

/// A raw 64-bit device address tagged with the semantic type of its pointee.
///
/// The tag only keeps addresses of different pointee types apart at
/// interfaces; the handle owns nothing and is copied freely.
#[derive(Debug)]
pub struct GpuPtr<T: ?Sized> {
    pub device_address: u64,
    pub _marker: PhantomData<T>,
}

impl<T: ?Sized> Clone for GpuPtr<T> {
    fn clone(&self) -> (r: Self)
        ensures
            r.device_address == self.device_address,
    {
        GpuPtr { device_address: self.device_address, _marker: PhantomData }
    }
}

impl<T: ?Sized> Copy for GpuPtr<T> {

}

impl<T: ?Sized> GpuPtr<T> {
    /// Wraps a raw device address.
    pub fn new(addr: u64) -> (r: Self)
        ensures
            r.device_address == addr,
    {
        GpuPtr { device_address: addr, _marker: PhantomData }
    }
}

} // verus!
