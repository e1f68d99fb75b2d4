use perfect_presentation_core::d3d::{SwapChainDescriptor, TextureDescriptor};
use perfect_presentation_core::driver::{Call, ClientRect, DriverCall, DriverReply};
use perfect_presentation_core::error::{status_code, Error, SetupError};
use perfect_presentation_core::handles::{
    D3dContext, D3dDevice, DxDeviceHandle, DxResourceHandle, Extent, Hdc, Hglrc, Hwnd, Pipeline,
    ProcAddress, RenderTarget, ShaderView, SwapChain, Texture2d,
};
use perfect_presentation_core::registry::{
    blit_shared_texture_to_screen, call, close_context, create_context_and_swap_chain,
    create_shared_texture, delete_shared_texture, make_context_current, present,
    resize_swap_chain, resume, swap_buffers, SessionRegistry, WindowIdentifier,
};
use perfect_presentation_core::model::Operation;
use perfect_presentation_core::session::InteropContext;
use perfect_presentation_core::setup::SessionCreation;
use perfect_presentation_core::wgl::{ContextAttributes, PixelFormatRequest, ProcTable};

fn entry_points() -> ProcTable {
    ProcTable {
        create_context_attribs: 0x1000,
        dx_open_device: 0x2000,
        dx_register_object: 0x3000,
        dx_lock_objects: 0x4000,
        dx_unlock_objects: 0x5000,
        dx_unregister_object: 0x6000,
        dx_close_device: 0x7000,
    }
}

/// A platform that performs nothing. It answers each call as a working
/// platform would, hands out the handles 1, 2, 3 and so on, and keeps the
/// calls in their order. The call with the position `failing` is answered
/// as failed.
struct Platform {
    handles: usize,
    calls: Vec<DriverCall>,
    failing: Option<usize>,
    client: ClientRect,
}

impl Platform {
    fn new() -> Platform {
        Platform {
            handles: 0,
            calls: Vec::new(),
            failing: None,
            client: ClientRect { left: 0, top: 0, right: 800, bottom: 600 },
        }
    }

    fn handle(&mut self) -> DriverReply {
        self.handles += 1;
        DriverReply::Handle(self.handles)
    }

    fn perform(&mut self, call: DriverCall) -> DriverReply {
        let reply = match &call {
            Call::GetDc { .. }
            | Call::CreateContext { .. }
            | Call::CreateContextAttribs { .. }
            | Call::CreateSwapChain { .. }
            | Call::CreatePipeline { .. }
            | Call::DxOpenDevice { .. }
            | Call::CreateTexture { .. }
            | Call::CreateShaderView { .. }
            | Call::DxRegisterObject { .. }
            | Call::CreateRenderTarget { .. } => self.handle(),
            Call::CreateDevice { .. } => {
                self.handles += 2;
                DriverReply::Handles(self.handles - 1, self.handles)
            }
            Call::ChoosePixelFormat { .. } => DriverReply::Number(7),
            Call::ResolveEntryPoints => DriverReply::EntryPoints(entry_points()),
            Call::GetClientRect { .. } => DriverReply::Rect(self.client),
            _ => DriverReply::Completed,
        };
        let reply = if self.failing == Some(self.calls.len()) { DriverReply::Failed } else { reply };
        self.calls.push(call);
        reply
    }

    /// The calls from the given position on.
    fn since(&self, position: usize) -> &[DriverCall] {
        &self.calls[position..]
    }

    fn presents(&self) -> usize {
        self.calls.iter().filter(|call| matches!(call, Call::Present { .. })).count()
    }
}

fn set_up(platform: &mut Platform) -> SessionCreation {
    let mut creation = InteropContext::new(Hwnd(1));
    while let Some(call) = creation.call() {
        let reply = platform.perform(call);
        creation.resume(reply);
    }
    creation
}

/// A session on a platform that has answered the 17 calls of the setup.
/// Its handles are: device context 1, legacy context 2, rendering context
/// 3, device 4 with immediate context 5, swap chain 6, pipeline 7, interop
/// channel 8.
fn session(platform: &mut Platform) -> InteropContext {
    set_up(platform).finish().unwrap().ok().unwrap()
}

fn drive(session: &mut InteropContext, platform: &mut Platform) -> Result<(), Error> {
    loop {
        let call = session.call().expect("an operation is under way");
        if let Some(outcome) = session.resume(platform.perform(call)) {
            return outcome;
        }
    }
}

fn perform(
    session: &mut InteropContext,
    platform: &mut Platform,
    operation: Operation,
) -> Result<(), Error> {
    session.begin(operation)?;
    drive(session, platform)
}

/// Creates the texture with the given name. Its texture, view and interop
/// object get the next three handles of the platform.
fn create(session: &mut InteropContext, platform: &mut Platform, name: u32) {
    let created =
        perform(session, platform, Operation::CreateTexture { name, width: 256, height: 256 });
    assert_eq!(created, Ok(()));
}

fn lock_call(object: usize) -> DriverCall {
    Call::DxLockObjects {
        entry: ProcAddress(0x4000),
        device: DxDeviceHandle(8),
        objects: vec![object],
    }
}

fn unlock_call(object: usize) -> DriverCall {
    Call::DxUnlockObjects {
        entry: ProcAddress(0x5000),
        device: DxDeviceHandle(8),
        objects: vec![object],
    }
}

fn unregister_call(object: usize) -> DriverCall {
    Call::DxUnregisterObject {
        entry: ProcAddress(0x6000),
        device: DxDeviceHandle(8),
        object: DxResourceHandle(object),
    }
}

fn draw_call(source: usize, target: usize, width: u32, height: u32) -> DriverCall {
    Call::Draw {
        context: D3dContext(5),
        pipeline: Pipeline(7),
        viewport: Extent { width, height },
        source: ShaderView(source),
        target: RenderTarget(target),
        vertices: 3,
    }
}

#[test]
fn setup_asks_for_every_call_in_order() {
    let mut platform = Platform::new();
    let creation = set_up(&mut platform);
    let dc = Hdc(1);
    let expected: Vec<DriverCall> = vec![
        Call::GetDc { window: Hwnd(1) },
        Call::ChoosePixelFormat { dc, request: PixelFormatRequest::standard() },
        Call::SetPixelFormat { dc, format: 7 },
        Call::CreateContext { dc },
        Call::MakeCurrent { dc, context: Some(Hglrc(2)) },
        Call::ResolveEntryPoints,
        Call::CreateContextAttribs {
            entry: ProcAddress(0x1000),
            dc,
            share: None,
            attributes: ContextAttributes::modern(),
        },
        Call::MakeCurrent { dc, context: None },
        Call::DeleteContext { context: Hglrc(2) },
        Call::MakeCurrent { dc, context: Some(Hglrc(3)) },
        Call::ResolveEntryPoints,
        Call::MakeCurrent { dc, context: None },
        Call::CreateDevice { flags: 0x22, feature_level: 0xb100 },
        Call::GetClientRect { window: Hwnd(1) },
        Call::CreateSwapChain {
            device: D3dDevice(4),
            window: Hwnd(1),
            descriptor: SwapChainDescriptor::flip(Extent { width: 800, height: 600 }),
        },
        Call::CreatePipeline { device: D3dDevice(4) },
        Call::DxOpenDevice { entry: ProcAddress(0x2000), device: D3dDevice(4) },
    ];
    assert_eq!(platform.calls, expected);
    assert!(creation.is_ended());
    let session = creation.finish().unwrap().ok().unwrap();
    assert!(session.is_idle());
    assert!(!session.is_lost());
    assert!(!session.is_closed());
    assert_eq!(session.extent(), Extent { width: 800, height: 600 });
    assert_eq!(session.swap_interval(), 0);
    assert!(session.call().is_none());
}

#[test]
fn unfinished_setup_has_no_session() {
    let creation = InteropContext::new(Hwnd(1));
    assert!(!creation.is_ended());
    assert!(creation.finish().is_none());
}

fn failed_setup(failing: usize) -> (Platform, Option<SetupError>) {
    let mut platform = Platform::new();
    platform.failing = Some(failing);
    let creation = set_up(&mut platform);
    let error = creation.finish().unwrap().err();
    (platform, error)
}

#[test]
fn failed_context_fails_the_setup() {
    let (platform, error) = failed_setup(3);
    assert_eq!(error, Some(SetupError::LegacyContext));
    assert_eq!(platform.calls.len(), 5);
}

#[test]
fn failed_device_gives_the_context_back() {
    let (platform, error) = failed_setup(12);
    assert_eq!(error, Some(SetupError::Device));
    let expected: Vec<DriverCall> = vec![
        Call::MakeCurrent { dc: Hdc(1), context: None },
        Call::DeleteContext { context: Hglrc(3) },
        Call::ReleaseDc { window: Hwnd(1), dc: Hdc(1) },
    ];
    assert_eq!(platform.since(13), &expected[..]);
}

#[test]
fn unreadable_window_size_gives_the_device_back() {
    let (platform, error) = failed_setup(13);
    assert_eq!(error, Some(SetupError::WindowSize));
    assert_eq!(
        platform.calls[14],
        Call::ReleaseDevice { device: D3dDevice(4), context: D3dContext(5) }
    );
    assert_eq!(platform.calls.len(), 18);
}

#[test]
fn inverted_client_area_fails_the_setup() {
    let mut platform = Platform::new();
    platform.client = ClientRect { left: 10, top: 0, right: 5, bottom: 600 };
    let error = set_up(&mut platform).finish().unwrap().err();
    assert_eq!(error, Some(SetupError::WindowSize));
}

#[test]
fn failed_swap_chain_fails_the_setup() {
    let (platform, error) = failed_setup(14);
    assert_eq!(error, Some(SetupError::SwapChain));
    assert_eq!(platform.calls.len(), 19);
}

#[test]
fn failed_pipeline_gives_the_swap_chain_back() {
    let (platform, error) = failed_setup(15);
    assert_eq!(error, Some(SetupError::Pipeline));
    let expected: Vec<DriverCall> = vec![
        Call::ReleaseSwapChain { swap_chain: SwapChain(6) },
        Call::ReleaseDevice { device: D3dDevice(4), context: D3dContext(5) },
        Call::MakeCurrent { dc: Hdc(1), context: None },
        Call::DeleteContext { context: Hglrc(3) },
        Call::ReleaseDc { window: Hwnd(1), dc: Hdc(1) },
    ];
    assert_eq!(platform.since(16), &expected[..]);
}

#[test]
fn failed_interop_channel_gives_everything_back() {
    let (platform, error) = failed_setup(16);
    assert_eq!(error, Some(SetupError::OpenDevice));
    let expected: Vec<DriverCall> = vec![
        Call::ReleasePipeline { pipeline: Pipeline(7) },
        Call::ReleaseSwapChain { swap_chain: SwapChain(6) },
        Call::ReleaseDevice { device: D3dDevice(4), context: D3dContext(5) },
        Call::MakeCurrent { dc: Hdc(1), context: None },
        Call::DeleteContext { context: Hglrc(3) },
        Call::ReleaseDc { window: Hwnd(1), dc: Hdc(1) },
    ];
    assert_eq!(platform.since(17), &expected[..]);
}

#[test]
fn created_texture_is_found_with_its_size() {
    let mut platform = Platform::new();
    let mut session = session(&mut platform);
    let created = perform(
        &mut session,
        &mut platform,
        Operation::CreateTexture { name: 42, width: 640, height: 480 },
    );
    assert_eq!(created, Ok(()));
    let expected: Vec<DriverCall> = vec![
        Call::CreateTexture {
            device: D3dDevice(4),
            descriptor: TextureDescriptor::shared(640, 480),
        },
        Call::CreateShaderView { device: D3dDevice(4), texture: Texture2d(9) },
        Call::DxRegisterObject {
            entry: ProcAddress(0x3000),
            device: DxDeviceHandle(8),
            object: Texture2d(9),
            name: 42,
            kind: 0x8D41,
            access: 1,
        },
    ];
    assert_eq!(platform.since(17), &expected[..]);
    let texture = session.get_shared_texture(42).unwrap();
    assert_eq!((texture.width(), texture.height()), (640, 480));
    assert_eq!(texture.name(), 42);
    assert!(!texture.is_locked());
    assert_eq!(texture.state().object, DxResourceHandle(11));
    assert_eq!(session.get_shared_texture(43).err(), Some(Error::TextureNotFound));
}

#[test]
fn duplicate_identifier_is_refused_without_a_call() {
    let mut platform = Platform::new();
    let mut session = session(&mut platform);
    create(&mut session, &mut platform, 42);
    let calls = platform.calls.len();
    assert_eq!(session.create_shared_texture(42, 8, 8), Err(Error::DuplicateTexture));
    assert!(session.call().is_none());
    assert!(session.is_idle());
    assert_eq!(platform.calls.len(), calls);
    assert_eq!(session.get_shared_texture(42).unwrap().width(), 256);
}

#[test]
fn deleted_texture_is_not_found() {
    let mut platform = Platform::new();
    let mut session = session(&mut platform);
    create(&mut session, &mut platform, 42);
    assert_eq!(session.delete_shared_texture(42), Ok(()));
    assert_eq!(session.get_shared_texture(42).err(), Some(Error::TextureNotFound));
    assert_eq!(drive(&mut session, &mut platform), Ok(()));
    let expected: Vec<DriverCall> = vec![
        unregister_call(11),
        Call::ReleaseShaderView { view: ShaderView(10) },
        Call::ReleaseTexture { texture: Texture2d(9) },
    ];
    assert_eq!(platform.since(20), &expected[..]);
    assert_eq!(session.get_shared_texture(42).err(), Some(Error::TextureNotFound));
    assert_eq!(session.delete_shared_texture(42), Err(Error::TextureNotFound));
    assert!(session.is_idle());
    assert!(!session.is_lost());
}

#[test]
fn unknown_texture_is_not_found_by_any_operation() {
    let mut platform = Platform::new();
    let mut session = session(&mut platform);
    assert_eq!(session.delete_shared_texture(5), Err(Error::TextureNotFound));
    assert_eq!(session.lock_shared_texture(5), Err(Error::TextureNotFound));
    assert_eq!(session.unlock_shared_texture(5), Err(Error::TextureNotFound));
    assert_eq!(session.copy_shared_texture_to_back_buffer(5), Err(Error::TextureNotFound));
    assert!(session.is_idle());
    assert_eq!(platform.calls.len(), 17);
}

#[test]
fn locked_texture_is_unlocked_before_it_is_deleted() {
    let mut platform = Platform::new();
    let mut session = session(&mut platform);
    create(&mut session, &mut platform, 42);
    assert_eq!(perform(&mut session, &mut platform, Operation::Lock { name: 42 }), Ok(()));
    assert_eq!(perform(&mut session, &mut platform, Operation::DeleteTexture { name: 42 }), Ok(()));
    let expected: Vec<DriverCall> = vec![
        unlock_call(11),
        unregister_call(11),
        Call::ReleaseShaderView { view: ShaderView(10) },
        Call::ReleaseTexture { texture: Texture2d(9) },
    ];
    assert_eq!(platform.since(21), &expected[..]);
}

#[test]
fn lock_state_alternates() {
    let mut platform = Platform::new();
    let mut session = session(&mut platform);
    create(&mut session, &mut platform, 42);
    assert_eq!(session.unlock_shared_texture(42), Err(Error::AlreadyUnlocked));
    assert_eq!(session.lock_shared_texture(42), Ok(()));
    assert_eq!(session.call(), Some(lock_call(11)));
    assert!(!session.get_shared_texture(42).unwrap().is_locked());
    assert_eq!(session.resume(DriverReply::Completed), Some(Ok(())));
    assert!(session.get_shared_texture(42).unwrap().is_locked());
    assert_eq!(session.lock_shared_texture(42), Err(Error::AlreadyLocked));
    assert_eq!(session.unlock_shared_texture(42), Ok(()));
    assert_eq!(session.call(), Some(unlock_call(11)));
    assert_eq!(session.resume(DriverReply::Completed), Some(Ok(())));
    assert!(!session.get_shared_texture(42).unwrap().is_locked());
    assert_eq!(session.unlock_shared_texture(42), Err(Error::AlreadyUnlocked));
    assert_eq!(session.lock_shared_texture(42), Ok(()));
}

#[test]
fn failed_lock_leaves_the_texture_unlocked_and_loses_the_device() {
    let mut platform = Platform::new();
    let mut session = session(&mut platform);
    create(&mut session, &mut platform, 42);
    assert_eq!(session.lock_shared_texture(42), Ok(()));
    assert_eq!(session.resume(DriverReply::Failed), Some(Err(Error::DriverFailure)));
    assert!(!session.get_shared_texture(42).unwrap().is_locked());
    assert!(session.is_lost());
    assert!(session.is_idle());
    assert_eq!(session.lock_shared_texture(42), Err(Error::DeviceLost));
    assert_eq!(session.present_swap_chain(1), Err(Error::DeviceLost));
    assert_eq!(session.make_current(), Err(Error::DeviceLost));
    assert_eq!(session.create_shared_texture(1, 1, 1), Err(Error::DeviceLost));
    assert_eq!(session.resize_swap_chain(1, 1), Err(Error::DeviceLost));
    assert_eq!(session.delete_shared_texture(42), Err(Error::DeviceLost));
    assert_eq!(session.close(), Ok(()));
}

#[test]
fn one_operation_at_a_time() {
    let mut platform = Platform::new();
    let mut session = session(&mut platform);
    assert_eq!(session.resume(DriverReply::Completed), Some(Err(Error::NotPending)));
    assert_eq!(session.present_swap_chain(1), Ok(()));
    assert!(!session.is_idle());
    assert_eq!(session.present_swap_chain(1), Err(Error::Busy));
    assert_eq!(session.create_shared_texture(1, 1, 1), Err(Error::Busy));
    assert_eq!(session.close(), Err(Error::Busy));
    assert_eq!(drive(&mut session, &mut platform), Ok(()));
    assert_eq!(session.resume(DriverReply::Completed), Some(Err(Error::NotPending)));
}

#[test]
fn blit_unlocks_draws_and_locks_again() {
    let mut platform = Platform::new();
    let mut session = session(&mut platform);
    create(&mut session, &mut platform, 42);
    assert_eq!(session.copy_shared_texture_to_back_buffer(42), Err(Error::AlreadyUnlocked));
    assert_eq!(perform(&mut session, &mut platform, Operation::Lock { name: 42 }), Ok(()));
    assert_eq!(perform(&mut session, &mut platform, Operation::Blit { name: 42 }), Ok(()));
    let expected: Vec<DriverCall> = vec![
        unlock_call(11),
        Call::CreateRenderTarget { device: D3dDevice(4), swap_chain: SwapChain(6) },
        draw_call(10, 12, 800, 600),
        lock_call(11),
    ];
    assert_eq!(platform.since(21), &expected[..]);
    assert!(session.get_shared_texture(42).unwrap().is_locked());
    assert_eq!(perform(&mut session, &mut platform, Operation::Blit { name: 42 }), Ok(()));
    let expected: Vec<DriverCall> = vec![unlock_call(11), draw_call(10, 12, 800, 600), lock_call(11)];
    assert_eq!(platform.since(25), &expected[..]);
}

#[test]
fn failed_draw_ends_the_blit_with_the_texture_unlocked() {
    let mut platform = Platform::new();
    let mut session = session(&mut platform);
    create(&mut session, &mut platform, 42);
    assert_eq!(perform(&mut session, &mut platform, Operation::Lock { name: 42 }), Ok(()));
    platform.failing = Some(23);
    assert_eq!(
        perform(&mut session, &mut platform, Operation::Blit { name: 42 }),
        Err(Error::DriverFailure)
    );
    assert_eq!(platform.calls.len(), 24);
    assert!(!session.get_shared_texture(42).unwrap().is_locked());
    assert!(session.is_lost());
}

#[test]
fn failed_render_target_ends_the_blit() {
    let mut platform = Platform::new();
    let mut session = session(&mut platform);
    create(&mut session, &mut platform, 42);
    assert_eq!(perform(&mut session, &mut platform, Operation::Lock { name: 42 }), Ok(()));
    assert_eq!(session.copy_shared_texture_to_back_buffer(42), Ok(()));
    assert_eq!(session.resume(DriverReply::Completed), None);
    assert_eq!(session.resume(DriverReply::Handle(0)), Some(Err(Error::DriverFailure)));
    assert!(session.is_lost());
}

#[test]
fn present_waits_or_tears() {
    let mut platform = Platform::new();
    let mut session = session(&mut platform);
    assert_eq!(perform(&mut session, &mut platform, Operation::Present { interval: 0 }), Ok(()));
    assert_eq!(session.swap_interval(), 0);
    assert_eq!(perform(&mut session, &mut platform, Operation::Present { interval: 2 }), Ok(()));
    assert_eq!(session.swap_interval(), 2);
    let expected: Vec<DriverCall> = vec![
        Call::Present { swap_chain: SwapChain(6), interval: 0, flags: 0x200 },
        Call::Present { swap_chain: SwapChain(6), interval: 2, flags: 0 },
    ];
    assert_eq!(platform.since(17), &expected[..]);
    platform.failing = Some(19);
    assert_eq!(
        perform(&mut session, &mut platform, Operation::Present { interval: 1 }),
        Err(Error::DriverFailure)
    );
    assert_eq!(session.swap_interval(), 2);
    assert!(session.is_lost());
}

#[test]
fn make_current_binds_the_rendering_context() {
    let mut platform = Platform::new();
    let mut session = session(&mut platform);
    assert_eq!(session.make_current(), Ok(()));
    assert_eq!(session.call(), Some(Call::MakeCurrent { dc: Hdc(1), context: Some(Hglrc(3)) }));
    assert_eq!(session.resume(DriverReply::Completed), Some(Ok(())));
    assert_eq!(session.make_current(), Ok(()));
    assert_eq!(session.resume(DriverReply::Failed), Some(Err(Error::DriverFailure)));
    assert!(session.is_lost());
}

#[test]
fn resize_without_render_target_resizes_at_once() {
    let mut platform = Platform::new();
    let mut session = session(&mut platform);
    assert_eq!(
        perform(&mut session, &mut platform, Operation::Resize { width: 1024, height: 768 }),
        Ok(())
    );
    let expected: Vec<DriverCall> = vec![Call::ResizeBuffers {
        swap_chain: SwapChain(6),
        buffers: 0,
        width: 1024,
        height: 768,
        format: 0,
        flags: 0x800,
    }];
    assert_eq!(platform.since(17), &expected[..]);
    assert_eq!(session.extent(), Extent { width: 1024, height: 768 });
}

#[test]
fn blit_after_resize_draws_to_a_fresh_target_of_the_new_size() {
    let mut platform = Platform::new();
    let mut session = session(&mut platform);
    create(&mut session, &mut platform, 42);
    assert_eq!(perform(&mut session, &mut platform, Operation::Lock { name: 42 }), Ok(()));
    assert_eq!(perform(&mut session, &mut platform, Operation::Blit { name: 42 }), Ok(()));
    assert_eq!(
        perform(&mut session, &mut platform, Operation::Resize { width: 1024, height: 768 }),
        Ok(())
    );
    assert_eq!(perform(&mut session, &mut platform, Operation::Blit { name: 42 }), Ok(()));
    let expected: Vec<DriverCall> = vec![
        Call::ReleaseRenderTarget { target: RenderTarget(12) },
        Call::ResizeBuffers {
            swap_chain: SwapChain(6),
            buffers: 0,
            width: 1024,
            height: 768,
            format: 0,
            flags: 0x800,
        },
        unlock_call(11),
        Call::CreateRenderTarget { device: D3dDevice(4), swap_chain: SwapChain(6) },
        draw_call(10, 13, 1024, 768),
        lock_call(11),
    ];
    assert_eq!(platform.since(25), &expected[..]);
    assert_eq!(session.extent(), Extent { width: 1024, height: 768 });
}

#[test]
fn failed_resize_keeps_the_size_and_loses_the_device() {
    let mut platform = Platform::new();
    let mut session = session(&mut platform);
    platform.failing = Some(17);
    assert_eq!(
        perform(&mut session, &mut platform, Operation::Resize { width: 1, height: 2 }),
        Err(Error::DriverFailure)
    );
    assert_eq!(session.extent(), Extent { width: 800, height: 600 });
    assert!(session.is_lost());
}

#[test]
fn session_closes_in_order_of_the_identifiers() {
    let mut platform = Platform::new();
    let mut session = session(&mut platform);
    create(&mut session, &mut platform, 7);
    create(&mut session, &mut platform, 3);
    create(&mut session, &mut platform, 5);
    assert_eq!(perform(&mut session, &mut platform, Operation::Lock { name: 3 }), Ok(()));
    assert_eq!(perform(&mut session, &mut platform, Operation::Blit { name: 3 }), Ok(()));
    let before = platform.calls.len();
    assert_eq!(perform(&mut session, &mut platform, Operation::Close), Ok(()));
    let expected: Vec<DriverCall> = vec![
        Call::ClearState { context: D3dContext(5) },
        unlock_call(14),
        unregister_call(14),
        Call::ReleaseShaderView { view: ShaderView(13) },
        Call::ReleaseTexture { texture: Texture2d(12) },
        unregister_call(17),
        Call::ReleaseShaderView { view: ShaderView(16) },
        Call::ReleaseTexture { texture: Texture2d(15) },
        unregister_call(11),
        Call::ReleaseShaderView { view: ShaderView(10) },
        Call::ReleaseTexture { texture: Texture2d(9) },
        Call::DxCloseDevice { entry: ProcAddress(0x7000), device: DxDeviceHandle(8) },
        Call::ReleaseRenderTarget { target: RenderTarget(18) },
        Call::ReleasePipeline { pipeline: Pipeline(7) },
        Call::ReleaseSwapChain { swap_chain: SwapChain(6) },
        Call::ReleaseDevice { device: D3dDevice(4), context: D3dContext(5) },
        Call::MakeCurrent { dc: Hdc(1), context: None },
        Call::DeleteContext { context: Hglrc(3) },
        Call::ReleaseDc { window: Hwnd(1), dc: Hdc(1) },
    ];
    assert_eq!(platform.since(before), &expected[..]);
    assert!(session.is_closed());
    assert!(!session.is_idle());
    assert!(session.call().is_none());
    for name in [3, 5, 7] {
        assert_eq!(session.get_shared_texture(name).err(), Some(Error::TextureNotFound));
    }
}

#[test]
fn closed_session_is_stale() {
    let mut platform = Platform::new();
    let mut session = session(&mut platform);
    assert_eq!(perform(&mut session, &mut platform, Operation::Close), Ok(()));
    let calls = platform.calls.len();
    assert_eq!(calls, 17 + 8);
    assert_eq!(session.present_swap_chain(1), Err(Error::StaleContext));
    assert_eq!(session.create_shared_texture(1, 1, 1), Err(Error::StaleContext));
    assert_eq!(session.close(), Err(Error::StaleContext));
    assert_eq!(session.resume(DriverReply::Completed), Some(Err(Error::NotPending)));
    assert!(session.call().is_none());
}

#[test]
fn closing_goes_on_after_a_failure_and_reports_it() {
    let mut platform = Platform::new();
    let mut session = session(&mut platform);
    create(&mut session, &mut platform, 1);
    create(&mut session, &mut platform, 2);
    let before = platform.calls.len();
    platform.failing = Some(before + 1);
    assert_eq!(
        perform(&mut session, &mut platform, Operation::Close),
        Err(Error::DriverFailure)
    );
    let expected: Vec<DriverCall> = vec![
        Call::ClearState { context: D3dContext(5) },
        unregister_call(11),
        unregister_call(14),
        Call::ReleaseShaderView { view: ShaderView(13) },
        Call::ReleaseTexture { texture: Texture2d(12) },
        Call::DxCloseDevice { entry: ProcAddress(0x7000), device: DxDeviceHandle(8) },
        Call::ReleasePipeline { pipeline: Pipeline(7) },
        Call::ReleaseSwapChain { swap_chain: SwapChain(6) },
        Call::ReleaseDevice { device: D3dDevice(4), context: D3dContext(5) },
        Call::MakeCurrent { dc: Hdc(1), context: None },
        Call::DeleteContext { context: Hglrc(3) },
        Call::ReleaseDc { window: Hwnd(1), dc: Hdc(1) },
    ];
    assert_eq!(platform.since(before), &expected[..]);
    assert!(session.is_closed());
    assert!(session.is_lost());
}

fn serve(registry: &mut SessionRegistry, window: WindowIdentifier, platform: &mut Platform) -> i32 {
    loop {
        let outstanding = call(registry, window).expect("an operation is under way");
        if let Some(status) = resume(registry, window, platform.perform(outstanding)) {
            return status;
        }
    }
}

#[test]
fn frame_of_a_window_ends_with_one_present() {
    let mut platform = Platform::new();
    let mut session = session(&mut platform);
    assert_eq!(session.extent(), Extent { width: 800, height: 600 });
    let created = perform(
        &mut session,
        &mut platform,
        Operation::CreateTexture { name: 42, width: 256, height: 256 },
    );
    assert_eq!(status_code(&created), 0);
    let locked = perform(&mut session, &mut platform, Operation::Lock { name: 42 });
    assert_eq!(status_code(&locked), 0);
    let blitted = perform(&mut session, &mut platform, Operation::Blit { name: 42 });
    assert_eq!(status_code(&blitted), 0);
    assert_eq!(platform.presents(), 0);
    let presented = perform(&mut session, &mut platform, Operation::Present { interval: 1 });
    assert_eq!(status_code(&presented), 0);
    assert_eq!(platform.presents(), 1);
    assert_eq!(
        platform.calls.last(),
        Some(&Call::Present { swap_chain: SwapChain(6), interval: 1, flags: 0 })
    );
    assert!(session.call().is_none());
}

#[test]
fn texture_created_for_the_rendering_side_is_locked() {
    let mut platform = Platform::new();
    let mut session = session(&mut platform);
    let created = perform(
        &mut session,
        &mut platform,
        Operation::CreateLockedTexture { name: 42, width: 256, height: 128 },
    );
    assert_eq!(created, Ok(()));
    assert_eq!(platform.calls.len(), 21);
    assert_eq!(platform.calls[20], lock_call(11));
    let texture = session.get_shared_texture(42).unwrap();
    assert!(texture.is_locked());
    assert_eq!((texture.width(), texture.height()), (256, 128));
    assert_eq!(
        session.begin(Operation::CreateLockedTexture { name: 42, width: 1, height: 1 }),
        Err(Error::DuplicateTexture)
    );
    platform.failing = Some(24);
    let created = perform(
        &mut session,
        &mut platform,
        Operation::CreateLockedTexture { name: 43, width: 8, height: 8 },
    );
    assert_eq!(created, Err(Error::DriverFailure));
    assert!(!session.get_shared_texture(43).unwrap().is_locked());
    assert!(session.is_lost());
}

#[test]
fn frame_through_the_registry_ends_with_one_present() {
    let mut platform = Platform::new();
    let mut registry = SessionRegistry::new();
    let window = WindowIdentifier(0x5150);
    assert_eq!(create_context_and_swap_chain(&mut registry, window, Hwnd(1)), 0);
    assert_eq!(serve(&mut registry, window, &mut platform), 0);
    assert_eq!(
        registry.session(window).unwrap().extent(),
        Extent { width: 800, height: 600 }
    );
    assert_eq!(make_context_current(&mut registry, window), 0);
    assert_eq!(serve(&mut registry, window, &mut platform), 0);
    assert_eq!(create_shared_texture(&mut registry, window, 42, 256, 256), 0);
    assert_eq!(serve(&mut registry, window, &mut platform), 0);
    {
        let texture = registry.session(window).unwrap().get_shared_texture(42).unwrap();
        assert_eq!((texture.width(), texture.height()), (256, 256));
        assert!(texture.is_locked());
    }
    assert_eq!(blit_shared_texture_to_screen(&mut registry, window, 42), 0);
    assert_eq!(serve(&mut registry, window, &mut platform), 0);
    assert_eq!(platform.presents(), 0);
    assert_eq!(swap_buffers(&mut registry, window), 0);
    assert_eq!(serve(&mut registry, window, &mut platform), 0);
    assert_eq!(platform.presents(), 1);
    assert_eq!(present(&mut registry, window, 0), 0);
    assert_eq!(
        call(&registry, window),
        Some(Call::Present { swap_chain: SwapChain(6), interval: 0, flags: 0x200 })
    );
    assert_eq!(resume(&mut registry, window, DriverReply::Completed), Some(0));
    assert!(call(&registry, window).is_none());
}

#[test]
fn registry_names_each_failure_by_its_status() {
    let mut platform = Platform::new();
    let mut registry = SessionRegistry::new();
    let window = WindowIdentifier(1);
    let other = WindowIdentifier(2);
    assert!(!registry.contains(window));
    assert_eq!(make_context_current(&mut registry, window), 8);
    assert_eq!(resume(&mut registry, window, DriverReply::Completed), Some(11));
    assert!(call(&registry, window).is_none());
    assert_eq!(create_context_and_swap_chain(&mut registry, window, Hwnd(1)), 0);
    assert!(registry.contains(window));
    assert!(registry.session(window).is_none());
    assert_eq!(create_context_and_swap_chain(&mut registry, window, Hwnd(1)), 10);
    assert_eq!(swap_buffers(&mut registry, window), 10);
    assert_eq!(serve(&mut registry, window, &mut platform), 0);
    assert!(registry.session(window).is_some());
    assert_eq!(swap_buffers(&mut registry, other), 8);
    assert_eq!(delete_shared_texture(&mut registry, window, 42), 4);
    assert_eq!(blit_shared_texture_to_screen(&mut registry, window, 42), 4);
    assert_eq!(create_shared_texture(&mut registry, window, 42, 16, 16), 0);
    assert_eq!(create_shared_texture(&mut registry, window, 43, 16, 16), 10);
    assert_eq!(serve(&mut registry, window, &mut platform), 0);
    assert_eq!(create_shared_texture(&mut registry, window, 42, 16, 16), 3);
    assert_eq!(blit_shared_texture_to_screen(&mut registry, window, 42), 0);
    assert_eq!(serve(&mut registry, window, &mut platform), 0);
    assert_eq!(resize_swap_chain(&mut registry, window, 320, 200), 0);
    assert_eq!(serve(&mut registry, window, &mut platform), 0);
    assert_eq!(
        registry.session(window).unwrap().extent(),
        Extent { width: 320, height: 200 }
    );
    assert_eq!(swap_buffers(&mut registry, window), 0);
    assert_eq!(
        call(&registry, window),
        Some(Call::Present { swap_chain: SwapChain(6), interval: 1, flags: 0 })
    );
    assert_eq!(resume(&mut registry, window, DriverReply::Failed), Some(1));
    assert_eq!(swap_buffers(&mut registry, window), 2);
    assert_eq!(close_context(&mut registry, window), 0);
    assert_eq!(serve(&mut registry, window, &mut platform), 1);
    assert!(!registry.contains(window));
    assert_eq!(swap_buffers(&mut registry, window), 8);
}

#[test]
fn failed_setup_leaves_no_session_in_the_registry() {
    let mut platform = Platform::new();
    platform.failing = Some(14);
    let mut registry = SessionRegistry::new();
    let window = WindowIdentifier(1);
    assert_eq!(create_context_and_swap_chain(&mut registry, window, Hwnd(1)), 0);
    assert_eq!(serve(&mut registry, window, &mut platform), 110);
    assert!(!registry.contains(window));
}

#[test]
fn sessions_of_two_windows_do_not_mix() {
    let mut platform = Platform::new();
    let mut registry = SessionRegistry::new();
    let first = WindowIdentifier(1);
    let second = WindowIdentifier(2);
    assert_eq!(create_context_and_swap_chain(&mut registry, first, Hwnd(1)), 0);
    assert_eq!(serve(&mut registry, first, &mut platform), 0);
    assert_eq!(create_context_and_swap_chain(&mut registry, second, Hwnd(2)), 0);
    assert_eq!(serve(&mut registry, second, &mut platform), 0);
    assert_eq!(create_shared_texture(&mut registry, first, 1, 8, 8), 0);
    assert_eq!(create_shared_texture(&mut registry, second, 1, 16, 16), 0);
    assert_eq!(serve(&mut registry, second, &mut platform), 0);
    assert_eq!(serve(&mut registry, first, &mut platform), 0);
    assert_eq!(registry.session(first).unwrap().get_shared_texture(1).unwrap().width(), 8);
    assert_eq!(registry.session(second).unwrap().get_shared_texture(1).unwrap().width(), 16);
    assert_eq!(close_context(&mut registry, first), 0);
    assert_eq!(serve(&mut registry, first, &mut platform), 0);
    assert!(!registry.contains(first));
    assert!(registry.contains(second));
}

#[test]
fn identifiers_and_sizes_keep_their_bits() {
    let mut platform = Platform::new();
    let mut registry = SessionRegistry::new();
    let window = WindowIdentifier(1);
    assert_eq!(create_context_and_swap_chain(&mut registry, window, Hwnd(1)), 0);
    assert_eq!(serve(&mut registry, window, &mut platform), 0);
    assert_eq!(create_shared_texture(&mut registry, window, -1, 64, 32), 0);
    assert_eq!(serve(&mut registry, window, &mut platform), 0);
    let texture = registry.session(window).unwrap().get_shared_texture(u32::MAX).unwrap();
    assert_eq!((texture.width(), texture.height()), (64, 32));
    assert_eq!(delete_shared_texture(&mut registry, window, -1), 0);
}
