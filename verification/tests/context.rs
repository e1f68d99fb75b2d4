use perfect_presentation_core::context::{
    client_extent, get_window_size, ContextCreation, WglContext,
};
use perfect_presentation_core::d3d::{
    present_flags, SwapChainDescriptor, TextureDescriptor, DEVICE_FLAGS,
    D3D11_CREATE_DEVICE_BGRA_SUPPORT, D3D11_CREATE_DEVICE_DEBUG,
};
use perfect_presentation_core::device::InteropDevice;
use perfect_presentation_core::driver::{Call, ClientRect, DriverCall, DriverReply};
use perfect_presentation_core::error::{status_code, Error, SetupError};
use perfect_presentation_core::handles::{
    D3dContext, D3dDevice, DxDeviceHandle, DxResourceHandle, Extent, Hdc, Hglrc, Hwnd,
    ProcAddress, Texture2d,
};
use perfect_presentation_core::wgl::{
    Access, ContextAttributes, EntryPoint, ObjectKind, PixelFormatRequest, ProcTable, Wgl,
};

fn full_table() -> ProcTable {
    ProcTable {
        create_context_attribs: 0x1000,
        dx_open_device: 0x2000,
        dx_register_object: 0x3000,
        dx_lock_objects: 0x4000,
        dx_unlock_objects: 0x5000,
        dx_unregister_object: 0x6000,
        dx_close_device: 0x7000,
    }
}

/// Answers every call of a context creation with success, but for the call
/// with the given position, which it answers with `instead`.
fn create_context(failing: Option<(usize, DriverReply)>) -> (ContextCreation, Vec<DriverCall>) {
    let mut creation = WglContext::create(Hwnd(1));
    let mut calls: Vec<DriverCall> = Vec::new();
    let mut handle: usize = 100;
    while let Some(call) = creation.call() {
        let mut reply = match &call {
            Call::GetDc { .. } | Call::CreateContext { .. } | Call::CreateContextAttribs { .. } => {
                handle += 1;
                DriverReply::Handle(handle)
            }
            Call::ChoosePixelFormat { .. } => DriverReply::Number(7),
            Call::ResolveEntryPoints => DriverReply::EntryPoints(full_table()),
            _ => DriverReply::Completed,
        };
        if let Some((position, instead)) = failing {
            if position == calls.len() {
                reply = instead;
            }
        }
        calls.push(call);
        creation.resume(reply);
    }
    (creation, calls)
}

fn working_context() -> WglContext {
    create_context(None).0.finish().unwrap().unwrap()
}

#[test]
fn context_creation_asks_for_every_call_in_order() {
    let (creation, calls) = create_context(None);
    let dc = Hdc(101);
    let legacy = Hglrc(102);
    let modern = Hglrc(103);
    let expected: Vec<DriverCall> = vec![
        Call::GetDc { window: Hwnd(1) },
        Call::ChoosePixelFormat { dc, request: PixelFormatRequest::standard() },
        Call::SetPixelFormat { dc, format: 7 },
        Call::CreateContext { dc },
        Call::MakeCurrent { dc, context: Some(legacy) },
        Call::ResolveEntryPoints,
        Call::CreateContextAttribs {
            entry: ProcAddress(0x1000),
            dc,
            share: None,
            attributes: ContextAttributes::modern(),
        },
        Call::MakeCurrent { dc, context: None },
        Call::DeleteContext { context: legacy },
        Call::MakeCurrent { dc, context: Some(modern) },
        Call::ResolveEntryPoints,
        Call::MakeCurrent { dc, context: None },
    ];
    assert_eq!(calls, expected);
    assert!(creation.is_ended());
    let context = creation.finish().unwrap().unwrap();
    assert_eq!(context.window(), Hwnd(1));
    assert_eq!(context.dc(), dc);
    assert_eq!(context.rc(), modern);
    assert_eq!(context.functions().addresses(), full_table());
}

#[test]
fn unfinished_creation_has_no_outcome() {
    let creation = WglContext::create(Hwnd(9));
    assert!(!creation.is_ended());
    assert_eq!(creation.call(), Some(Call::GetDc { window: Hwnd(9) }));
    assert!(creation.finish().is_none());
}

#[test]
fn window_without_device_context_fails_at_once() {
    let (creation, calls) = create_context(Some((0, DriverReply::Handle(0))));
    assert_eq!(calls.len(), 1);
    assert_eq!(creation.finish(), Some(Err(SetupError::DeviceContext)));
}

#[test]
fn missing_pixel_format_releases_the_device_context() {
    let (creation, calls) = create_context(Some((1, DriverReply::Number(0))));
    assert_eq!(calls.len(), 3);
    assert_eq!(calls[2], Call::ReleaseDc { window: Hwnd(1), dc: Hdc(101) });
    assert_eq!(creation.finish(), Some(Err(SetupError::PixelFormat)));
}

#[test]
fn refused_pixel_format_fails_the_creation() {
    let (creation, calls) = create_context(Some((2, DriverReply::Failed)));
    assert_eq!(calls.last(), Some(&Call::ReleaseDc { window: Hwnd(1), dc: Hdc(101) }));
    assert_eq!(creation.finish(), Some(Err(SetupError::PixelFormat)));
}

#[test]
fn missing_legacy_context_fails_the_creation() {
    let (creation, calls) = create_context(Some((3, DriverReply::Failed)));
    assert_eq!(calls.len(), 5);
    assert_eq!(creation.finish(), Some(Err(SetupError::LegacyContext)));
}

#[test]
fn legacy_context_that_cannot_be_bound_is_destroyed() {
    let (creation, calls) = create_context(Some((4, DriverReply::Failed)));
    let expected_tail: Vec<DriverCall> = vec![
        Call::DeleteContext { context: Hglrc(102) },
        Call::ReleaseDc { window: Hwnd(1), dc: Hdc(101) },
    ];
    assert_eq!(&calls[5..], &expected_tail[..]);
    assert_eq!(creation.finish(), Some(Err(SetupError::Binding)));
}

#[test]
fn missing_creation_entry_point_destroys_the_legacy_context() {
    let mut table = full_table();
    table.create_context_attribs = 0;
    let (creation, calls) = create_context(Some((5, DriverReply::EntryPoints(table))));
    let expected_tail: Vec<DriverCall> = vec![
        Call::MakeCurrent { dc: Hdc(101), context: None },
        Call::DeleteContext { context: Hglrc(102) },
        Call::ReleaseDc { window: Hwnd(1), dc: Hdc(101) },
    ];
    assert_eq!(&calls[6..], &expected_tail[..]);
    assert_eq!(
        creation.finish(),
        Some(Err(SetupError::MissingEntryPoint(EntryPoint::CreateContextAttribsARB)))
    );
}

#[test]
fn failed_modern_context_still_destroys_the_legacy_context() {
    let (creation, calls) = create_context(Some((6, DriverReply::Handle(0))));
    let expected_tail: Vec<DriverCall> = vec![
        Call::MakeCurrent { dc: Hdc(101), context: None },
        Call::DeleteContext { context: Hglrc(102) },
        Call::ReleaseDc { window: Hwnd(1), dc: Hdc(101) },
    ];
    assert_eq!(&calls[7..], &expected_tail[..]);
    assert_eq!(creation.finish(), Some(Err(SetupError::ModernContext)));
}

#[test]
fn legacy_context_that_cannot_be_destroyed_fails_the_creation() {
    let (creation, calls) = create_context(Some((8, DriverReply::Failed)));
    let expected_tail: Vec<DriverCall> = vec![
        Call::DeleteContext { context: Hglrc(103) },
        Call::ReleaseDc { window: Hwnd(1), dc: Hdc(101) },
    ];
    assert_eq!(&calls[9..], &expected_tail[..]);
    assert_eq!(creation.finish(), Some(Err(SetupError::Cleanup)));
}

#[test]
fn missing_interop_entry_point_gives_the_modern_context_back() {
    let mut table = full_table();
    table.dx_lock_objects = 0;
    table.dx_close_device = 0;
    let (creation, calls) = create_context(Some((10, DriverReply::EntryPoints(table))));
    let expected_tail: Vec<DriverCall> = vec![
        Call::MakeCurrent { dc: Hdc(101), context: None },
        Call::DeleteContext { context: Hglrc(103) },
        Call::ReleaseDc { window: Hwnd(1), dc: Hdc(101) },
    ];
    assert_eq!(&calls[11..], &expected_tail[..]);
    assert_eq!(
        creation.finish(),
        Some(Err(SetupError::MissingEntryPoint(EntryPoint::DXLockObjectsNV)))
    );
}

#[test]
fn first_failure_stays_on_record() {
    let mut creation = WglContext::create(Hwnd(1));
    creation.resume(DriverReply::Handle(5));
    creation.resume(DriverReply::Number(0));
    creation.resume(DriverReply::Failed);
    assert_eq!(creation.finish(), Some(Err(SetupError::PixelFormat)));
}

#[test]
fn reply_after_the_end_changes_nothing() {
    let (mut creation, _) = create_context(None);
    creation.resume(DriverReply::Failed);
    assert!(creation.call().is_none());
    assert!(creation.finish().unwrap().is_ok());
}

#[test]
fn entry_points_are_complete_or_the_first_missing_is_named() {
    assert_eq!(Wgl::from_current_context(full_table()).unwrap().addresses(), full_table());
    let mut table = full_table();
    table.dx_unregister_object = 0;
    assert_eq!(Wgl::from_current_context(table), Err(EntryPoint::DXUnregisterObjectNV));
    table.dx_open_device = 0;
    assert_eq!(Wgl::from_current_context(table), Err(EntryPoint::DXOpenDeviceNV));
    table.create_context_attribs = 0;
    assert_eq!(Wgl::from_current_context(table), Err(EntryPoint::CreateContextAttribsARB));
    let mut table = full_table();
    table.dx_register_object = 0;
    assert_eq!(Wgl::from_current_context(table), Err(EntryPoint::DXRegisterObjectNV));
    let mut table = full_table();
    table.dx_unlock_objects = 0;
    assert_eq!(Wgl::from_current_context(table), Err(EntryPoint::DXUnlockObjectsNV));
    let mut table = full_table();
    table.dx_close_device = 0;
    assert_eq!(Wgl::from_current_context(table), Err(EntryPoint::DXCloseDeviceNV));
}

#[test]
fn entry_points_have_the_names_of_the_extension() {
    assert_eq!(EntryPoint::CreateContextAttribsARB.symbol(), "wglCreateContextAttribsARB");
    assert_eq!(EntryPoint::DXOpenDeviceNV.symbol(), "wglDXOpenDeviceNV");
    assert_eq!(EntryPoint::DXRegisterObjectNV.symbol(), "wglDXRegisterObjectNV");
    assert_eq!(EntryPoint::DXLockObjectsNV.symbol(), "wglDXLockObjectsNV");
    assert_eq!(EntryPoint::DXUnlockObjectsNV.symbol(), "wglDXUnlockObjectsNV");
    assert_eq!(EntryPoint::DXUnregisterObjectNV.symbol(), "wglDXUnregisterObjectNV");
    assert_eq!(EntryPoint::DXCloseDeviceNV.symbol(), "wglDXCloseDeviceNV");
}

#[test]
fn entry_point_calls_carry_their_address_and_arguments() {
    let wgl = Wgl::from_current_context(full_table()).unwrap();
    assert_eq!(
        wgl.CreateContextAttribsARB(Hdc(3), Some(Hglrc(4)), ContextAttributes::modern()),
        Call::CreateContextAttribs {
            entry: ProcAddress(0x1000),
            dc: Hdc(3),
            share: Some(Hglrc(4)),
            attributes: ContextAttributes { major: 4, minor: 6, profile_mask: 1, flags: 2 },
        }
    );
    assert_eq!(
        wgl.DXOpenDeviceNV(D3dDevice(8)),
        Call::DxOpenDevice { entry: ProcAddress(0x2000), device: D3dDevice(8) }
    );
    assert_eq!(
        wgl.DXLockObjectsNV(DxDeviceHandle(9), vec![1, 2]),
        Call::DxLockObjects {
            entry: ProcAddress(0x4000),
            device: DxDeviceHandle(9),
            objects: vec![1, 2],
        }
    );
    assert_eq!(
        wgl.DXUnlockObjectsNV(DxDeviceHandle(9), vec![2]),
        Call::DxUnlockObjects {
            entry: ProcAddress(0x5000),
            device: DxDeviceHandle(9),
            objects: vec![2],
        }
    );
    assert_eq!(
        wgl.DXCloseDeviceNV(DxDeviceHandle(9)),
        Call::DxCloseDevice { entry: ProcAddress(0x7000), device: DxDeviceHandle(9) }
    );
    assert_eq!(
        wgl.DXRegisterObjectNV(DxDeviceHandle(9), Texture2d(5), 42, 0x8D41, 1),
        Call::DxRegisterObject {
            entry: ProcAddress(0x3000),
            device: DxDeviceHandle(9),
            object: Texture2d(5),
            name: 42,
            kind: 0x8D41,
            access: 1,
        }
    );
    assert_eq!(
        wgl.DXUnregisterObjectNV(DxDeviceHandle(9), DxResourceHandle(6)),
        Call::DxUnregisterObject {
            entry: ProcAddress(0x6000),
            device: DxDeviceHandle(9),
            object: DxResourceHandle(6),
        }
    );
}

#[test]
fn modern_context_attributes_are_a_zero_terminated_list() {
    assert_eq!(
        ContextAttributes::modern().to_list(),
        vec![0x2091, 4, 0x2092, 6, 0x9126, 0x0000_0001, 0x2094, 0x0000_0002, 0]
    );
}

#[test]
fn standard_pixel_format_asks_for_a_double_buffered_gl_window() {
    let request = PixelFormatRequest::standard();
    assert_eq!(request.flags, 0x20 | 0x04 | 0x01);
    assert_eq!(request.pixel_type, 0);
    assert_eq!(request.layer_type, 0);
    assert_eq!((request.color_bits, request.depth_bits, request.stencil_bits), (32, 24, 8));
}

#[test]
fn access_hints_and_object_kinds_have_the_values_of_the_extension() {
    assert_eq!(Access::ReadOnly.hint(), 0);
    assert_eq!(Access::ReadWrite.hint(), 1);
    assert_eq!(Access::WriteDiscard.hint(), 2);
    assert_eq!(ObjectKind::Texture2d.target(), 0x0DE1);
    assert_eq!(ObjectKind::Renderbuffer.target(), 0x8D41);
}

#[test]
fn context_calls_name_its_handles() {
    let context = working_context();
    assert_eq!(
        context.make_current(),
        Call::MakeCurrent { dc: Hdc(101), context: Some(Hglrc(103)) }
    );
    assert_eq!(context.swap_buffers(), Call::SwapBuffers { dc: Hdc(101) });
    assert_eq!(context.unbind(), Call::MakeCurrent { dc: Hdc(101), context: None });
    assert_eq!(context.delete(), Call::DeleteContext { context: Hglrc(103) });
    assert_eq!(context.release(), Call::ReleaseDc { window: Hwnd(1), dc: Hdc(101) });
    assert_eq!(context.state().functions, full_table());
}

#[test]
fn destroyed_context_is_unbound_deleted_and_released() {
    let calls: Vec<DriverCall> = working_context().destroy();
    let expected: Vec<DriverCall> = vec![
        Call::MakeCurrent { dc: Hdc(101), context: None },
        Call::DeleteContext { context: Hglrc(103) },
        Call::ReleaseDc { window: Hwnd(1), dc: Hdc(101) },
    ];
    assert_eq!(calls, expected);
}

#[test]
fn window_size_is_the_size_of_the_client_area() {
    let rect = ClientRect { left: 0, top: 0, right: 800, bottom: 600 };
    assert_eq!(get_window_size(rect), (800, 600));
    let rect = ClientRect { left: 10, top: 20, right: 5, bottom: 50 };
    assert_eq!(get_window_size(rect), (-5, 30));
}

#[test]
fn client_extent_needs_ordered_edges() {
    let rect = ClientRect { left: 10, top: 20, right: 810, bottom: 620 };
    assert_eq!(client_extent(rect), Some(Extent { width: 800, height: 600 }));
    let rect = ClientRect { left: 0, top: 0, right: 0, bottom: 0 };
    assert_eq!(client_extent(rect), Some(Extent { width: 0, height: 0 }));
    let rect = ClientRect { left: 1, top: 0, right: 0, bottom: 5 };
    assert_eq!(client_extent(rect), None);
    let rect = ClientRect { left: 0, top: 5, right: 3, bottom: 4 };
    assert_eq!(client_extent(rect), None);
    let rect = ClientRect { left: i32::MIN, top: i32::MIN, right: i32::MAX, bottom: i32::MAX };
    assert_eq!(client_extent(rect), Some(Extent { width: u32::MAX, height: u32::MAX }));
}

#[test]
fn present_allows_tearing_only_without_vertical_sync() {
    assert_eq!(present_flags(0), 0x200);
    assert_eq!(present_flags(1), 0);
    assert_eq!(present_flags(4), 0);
}

#[test]
fn descriptors_have_the_fixed_format() {
    let texture = TextureDescriptor::shared(256, 128);
    assert_eq!((texture.width, texture.height), (256, 128));
    assert_eq!((texture.mip_levels, texture.array_size), (1, 1));
    assert_eq!(texture.format, 87);
    assert_eq!((texture.sample_count, texture.sample_quality), (1, 0));
    assert_eq!(texture.usage, 0);
    assert_eq!(texture.bind_flags, 0x20 | 0x08);
    assert_eq!((texture.cpu_access_flags, texture.misc_flags), (0, 0));
    let chain = SwapChainDescriptor::flip(Extent { width: 800, height: 600 });
    assert_eq!((chain.width, chain.height), (800, 600));
    assert_eq!(chain.format, 87);
    assert_eq!(chain.buffer_count, 2);
    assert_eq!(chain.buffer_usage, 0x20);
    assert_eq!(chain.swap_effect, 4);
    assert_eq!(chain.flags, 0x800);
    assert_eq!(DEVICE_FLAGS, D3D11_CREATE_DEVICE_BGRA_SUPPORT | D3D11_CREATE_DEVICE_DEBUG);
}

#[test]
fn status_is_zero_for_success_only() {
    assert_eq!(status_code(&Ok(())), 0);
    let errors = [
        Error::DriverFailure,
        Error::DeviceLost,
        Error::DuplicateTexture,
        Error::TextureNotFound,
        Error::AlreadyLocked,
        Error::AlreadyUnlocked,
        Error::CrossDevice,
        Error::StaleContext,
        Error::BatchTooLarge,
        Error::Busy,
        Error::NotPending,
    ];
    for (index, error) in errors.iter().enumerate() {
        assert_eq!(status_code(&Err(*error)), index as i32 + 1);
        assert_eq!(error.code(), index as i32 + 1);
        assert_eq!(error.is_violation(), index >= 2);
    }
    assert_eq!(SetupError::DeviceContext.code(), 101);
    assert_eq!(SetupError::MissingEntryPoint(EntryPoint::DXOpenDeviceNV).code(), 105);
    assert_eq!(SetupError::OpenDevice.code(), 112);
}

#[test]
fn device_opens_on_a_valid_handle_and_closes_once() {
    let context = working_context();
    assert_eq!(
        InteropDevice::open_call(&context, D3dDevice(7)),
        Call::DxOpenDevice { entry: ProcAddress(0x2000), device: D3dDevice(7) }
    );
    assert_eq!(
        InteropDevice::open(&context, D3dDevice(7), D3dContext(8), DriverReply::Handle(0)),
        Err(SetupError::OpenDevice)
    );
    assert_eq!(
        InteropDevice::open(&context, D3dDevice(7), D3dContext(8), DriverReply::Failed),
        Err(SetupError::OpenDevice)
    );
    let mut device =
        InteropDevice::open(&context, D3dDevice(7), D3dContext(8), DriverReply::Handle(55))
            .unwrap();
    assert!(device.is_open());
    assert_eq!(device.device(), D3dDevice(7));
    assert_eq!(device.context(), D3dContext(8));
    assert_eq!(device.interop_handle(), DxDeviceHandle(55));
    assert_eq!(
        device.close(),
        Ok(Call::DxCloseDevice { entry: ProcAddress(0x7000), device: DxDeviceHandle(55) })
    );
    assert!(!device.is_open());
    assert_eq!(device.close(), Err(Error::StaleContext));
}
