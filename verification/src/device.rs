//! The presentation device and its interop channel to a rendering context.

use crate::context::WglContext;
use crate::driver::{CallModel, DriverCall, DriverReply};
use crate::error::{Error, SetupError};
use crate::handles::{D3dContext, D3dDevice, DxDeviceHandle};
use crate::wgl::{ProcTable, Wgl};
use vstd::prelude::*;

verus! {

/// What an interop device consists of.
#[derive(Clone, Copy, Debug, PartialEq, Eq, Structural)]
pub struct DeviceState {
    pub device: D3dDevice,
    pub context: D3dContext,
    pub interop_handle: DxDeviceHandle,
    pub functions: ProcTable,
    /// Whether the interop channel is open.
    pub open: bool,
}

impl DeviceState {
    pub open spec fn close_call(self) -> CallModel {
        Wgl::dx_close_device(self.functions, self.interop_handle)
    }

    pub open spec fn closed(self) -> DeviceState {
        DeviceState { open: false, ..self }
    }
}

/// A presentation device with the interop channel that was opened on it.
#[derive(Debug, PartialEq, Eq)]
pub struct InteropDevice {
    device: D3dDevice,
    context: D3dContext,
    interop_handle: DxDeviceHandle,
    functions: Wgl,
    open: bool,
}

impl View for InteropDevice {
    type V = DeviceState;

    closed spec fn view(&self) -> DeviceState {
        DeviceState {
            device: self.device,
            context: self.context,
            interop_handle: self.interop_handle,
            functions: self.functions@,
            open: self.open,
        }
    }
}

impl InteropDevice {
    /// The call that opens the interop channel between a rendering context
    /// and a presentation device.
    pub fn open_call(context: &WglContext, device: D3dDevice) -> (call: DriverCall)
        ensures
            call@ == Wgl::dx_open_device(context@.functions, device),
    {
        context.functions().DXOpenDeviceNV(device)
    }

    /// The device as the reply to [`InteropDevice::open_call`] makes it: an
    /// open channel where the reply holds a valid handle, a failure
    /// otherwise.
    pub fn open(
        context: &WglContext,
        device: D3dDevice,
        immediate: D3dContext,
        reply: DriverReply,
    ) -> (opened: Result<InteropDevice, SetupError>)
        ensures
            match opened {
                Ok(opened) => reply.handle_spec() is Some && opened@ == (DeviceState {
                    device,
                    context: immediate,
                    interop_handle: DxDeviceHandle(reply.handle_spec().unwrap()),
                    functions: context@.functions,
                    open: true,
                }),
                Err(error) => reply.handle_spec() is None && error == SetupError::OpenDevice,
            },
    {
        match reply.handle() {
            Some(raw) => Ok(
                InteropDevice {
                    device,
                    context: immediate,
                    interop_handle: DxDeviceHandle(raw),
                    functions: *context.functions(),
                    open: true,
                },
            ),
            None => Err(SetupError::OpenDevice),
        }
    }

    /// Closes the channel and hands out the call that closes it at the
    /// driver. It is the last interop call of the device: every later
    /// operation on the device or on a texture of it is refused as stale.
    pub fn close(&mut self) -> (call: Result<DriverCall, Error>)
        ensures
            match call {
                Ok(call) => old(self)@.open && call@ == old(self)@.close_call() && final(self)@
                    == old(self)@.closed(),
                Err(error) => !old(self)@.open && error == Error::StaleContext && final(self)@
                    == old(self)@,
            },
    {
        if self.open {
            self.open = false;
            Ok(self.functions.DXCloseDeviceNV(self.interop_handle))
        } else {
            Err(Error::StaleContext)
        }
    }

    pub fn is_open(&self) -> (open: bool)
        ensures
            open == self@.open,
    {
        self.open
    }

    pub fn device(&self) -> (device: D3dDevice)
        ensures
            device == self@.device,
    {
        self.device
    }

    pub fn context(&self) -> (context: D3dContext)
        ensures
            context == self@.context,
    {
        self.context
    }

    pub fn interop_handle(&self) -> (handle: DxDeviceHandle)
        ensures
            handle == self@.interop_handle,
    {
        self.interop_handle
    }

    /// The entry points through which the channel is driven.
    pub fn functions(&self) -> (functions: &Wgl)
        ensures
            functions@ == self@.functions,
    {
        &self.functions
    }
}

} // verus!
