use perfect_presentation_core::context::WglContext;
use perfect_presentation_core::d3d::TextureDescriptor;
use perfect_presentation_core::device::InteropDevice;
use perfect_presentation_core::driver::{Call, DriverCall, DriverReply};
use perfect_presentation_core::error::Error;
use perfect_presentation_core::handles::{
    D3dContext, D3dDevice, DxDeviceHandle, DxResourceHandle, Hwnd, ProcAddress, ShaderView,
    Texture2d,
};
use perfect_presentation_core::texture::{SharedTexture, TextureState};
use perfect_presentation_core::wgl::{Access, ObjectKind, ProcTable};

fn table_of_textures() -> ProcTable {
    ProcTable {
        create_context_attribs: 0x1000,
        dx_open_device: 0x2000,
        dx_register_object: 0x3000,
        dx_lock_objects: 0x4000,
        dx_unlock_objects: 0x5000,
        dx_unregister_object: 0x6000,
        dx_close_device: 0x7000,
    }
}

fn context_of_textures() -> WglContext {
    let mut creation = WglContext::create(Hwnd(1));
    let mut handle: usize = 10;
    while let Some(call) = creation.call() {
        let reply = match call {
            Call::GetDc { .. } | Call::CreateContext { .. } | Call::CreateContextAttribs { .. } => {
                handle += 1;
                DriverReply::Handle(handle)
            }
            Call::ChoosePixelFormat { .. } => DriverReply::Number(1),
            Call::ResolveEntryPoints => DriverReply::EntryPoints(table_of_textures()),
            _ => DriverReply::Completed,
        };
        creation.resume(reply);
    }
    creation.finish().unwrap().unwrap()
}

/// An open device with the given interop handle.
fn device(channel: usize) -> InteropDevice {
    InteropDevice::open(
        &context_of_textures(),
        D3dDevice(channel + 1),
        D3dContext(channel + 2),
        DriverReply::Handle(channel),
    )
    .unwrap()
}

/// A registered texture whose handles are `base`, `base + 1` and `base + 2`.
fn texture(device: &InteropDevice, name: u32, base: usize) -> SharedTexture {
    let mut registration =
        SharedTexture::register(device, name, 64, 32, ObjectKind::Renderbuffer, Access::ReadWrite)
            .unwrap();
    registration.resume(DriverReply::Handle(base));
    registration.resume(DriverReply::Handle(base + 1));
    registration.resume(DriverReply::Handle(base + 2));
    registration.finish().unwrap().unwrap()
}

fn textures(device: &InteropDevice, count: usize) -> Vec<SharedTexture> {
    (0..count).map(|index| texture(device, index as u32, 1000 + 10 * index)).collect()
}

fn locked(device: &InteropDevice, textures: Vec<SharedTexture>) -> Vec<SharedTexture> {
    let transition = SharedTexture::lock(textures, device).ok().unwrap();
    let (textures, outcome) = transition.complete(DriverReply::Completed);
    assert_eq!(outcome, Ok(()));
    textures
}

#[test]
fn registration_creates_views_and_registers() {
    let device = device(500);
    let mut registration =
        SharedTexture::register(&device, 42, 256, 128, ObjectKind::Texture2d, Access::WriteDiscard)
            .unwrap();
    assert!(!registration.is_ended());
    assert_eq!(
        registration.call(),
        Some(Call::CreateTexture {
            device: D3dDevice(501),
            descriptor: TextureDescriptor::shared(256, 128),
        })
    );
    registration.resume(DriverReply::Handle(7));
    assert_eq!(
        registration.call(),
        Some(Call::CreateShaderView { device: D3dDevice(501), texture: Texture2d(7) })
    );
    registration.resume(DriverReply::Handle(8));
    assert_eq!(
        registration.call(),
        Some(Call::DxRegisterObject {
            entry: ProcAddress(0x3000),
            device: DxDeviceHandle(500),
            object: Texture2d(7),
            name: 42,
            kind: 0x0DE1,
            access: 2,
        })
    );
    registration.resume(DriverReply::Handle(9));
    assert!(registration.is_ended());
    assert_eq!(registration.call(), None);
    let texture = registration.finish().unwrap().unwrap();
    assert_eq!(
        texture.state(),
        TextureState {
            device: DxDeviceHandle(500),
            texture: Texture2d(7),
            view: ShaderView(8),
            object: DxResourceHandle(9),
            name: 42,
            width: 256,
            height: 128,
            locked: false,
        }
    );
    assert_eq!(texture.name(), 42);
    assert_eq!((texture.width(), texture.height()), (256, 128));
    assert!(!texture.is_locked());
}

#[test]
fn registration_fails_with_the_first_invalid_handle() {
    let device = device(500);
    for failing in 0..3 {
        let mut registration = SharedTexture::register(
            &device,
            1,
            8,
            8,
            ObjectKind::Renderbuffer,
            Access::ReadWrite,
        )
        .unwrap();
        for step in 0..failing {
            registration.resume(DriverReply::Handle(step + 1));
        }
        registration.resume(if failing == 1 { DriverReply::Failed } else { DriverReply::Handle(0) });
        assert!(registration.is_ended());
        assert_eq!(registration.call(), None);
        registration.resume(DriverReply::Handle(77));
        assert_eq!(registration.finish(), Some(Err(Error::DriverFailure)));
    }
}

#[test]
fn unfinished_registration_has_no_texture() {
    let device = device(500);
    let mut registration =
        SharedTexture::register(&device, 1, 8, 8, ObjectKind::Renderbuffer, Access::ReadOnly)
            .unwrap();
    registration.resume(DriverReply::Handle(3));
    assert!(registration.finish().is_none());
}

#[test]
fn closed_device_registers_nothing() {
    let mut device = device(500);
    device.close().unwrap();
    let refused =
        SharedTexture::register(&device, 1, 8, 8, ObjectKind::Renderbuffer, Access::ReadWrite);
    assert_eq!(refused.err(), Some(Error::StaleContext));
}

#[test]
fn lock_then_lock_again_is_refused() {
    let device = device(500);
    let textures = locked(&device, vec![texture(&device, 1, 1000)]);
    assert!(textures[0].is_locked());
    let rejected = SharedTexture::lock(textures, &device).err().unwrap();
    assert_eq!(rejected.error, Error::AlreadyLocked);
    assert!(rejected.textures[0].is_locked());
    let transition = SharedTexture::unlock(rejected.textures, &device).ok().unwrap();
    let (textures, outcome) = transition.complete(DriverReply::Completed);
    assert_eq!(outcome, Ok(()));
    assert!(!textures[0].is_locked());
    let rejected = SharedTexture::unlock(textures, &device).err().unwrap();
    assert_eq!(rejected.error, Error::AlreadyUnlocked);
    assert!(SharedTexture::lock(rejected.textures, &device).is_ok());
}

#[test]
fn batch_is_covered_by_one_call_in_order() {
    let device = device(500);
    let transition = SharedTexture::lock(textures(&device, 3), &device).ok().unwrap();
    assert_eq!(
        transition.call(),
        Some(Call::DxLockObjects {
            entry: ProcAddress(0x4000),
            device: DxDeviceHandle(500),
            objects: vec![1002, 1012, 1022],
        })
    );
    let (textures, outcome) = transition.complete(DriverReply::Completed);
    assert_eq!(outcome, Ok(()));
    let transition = SharedTexture::unlock(textures, &device).ok().unwrap();
    assert_eq!(
        transition.call(),
        Some(Call::DxUnlockObjects {
            entry: ProcAddress(0x5000),
            device: DxDeviceHandle(500),
            objects: vec![1002, 1012, 1022],
        })
    );
}

#[test]
fn batch_moves_all_textures_or_none() {
    let device = device(500);
    for count in [1usize, 2, 7, 16] {
        let transition = SharedTexture::lock(textures(&device, count), &device).ok().unwrap();
        let (kept, outcome) = transition.complete(DriverReply::Failed);
        assert_eq!(outcome, Err(Error::DriverFailure));
        assert_eq!(kept.len(), count);
        assert!(kept.iter().all(|texture| !texture.is_locked()));
        let transition = SharedTexture::lock(kept, &device).ok().unwrap();
        let (moved, outcome) = transition.complete(DriverReply::Completed);
        assert_eq!(outcome, Ok(()));
        assert_eq!(moved.len(), count);
        assert!(moved.iter().all(|texture| texture.is_locked()));
        for (index, texture) in moved.iter().enumerate() {
            assert_eq!(texture.name(), index as u32);
            assert_eq!(texture.state().object, DxResourceHandle(1002 + 10 * index));
        }
    }
}

#[test]
fn batch_of_seventeen_is_too_large() {
    let device = device(500);
    let rejected = SharedTexture::lock(textures(&device, 17), &device).err().unwrap();
    assert_eq!(rejected.error, Error::BatchTooLarge);
    assert_eq!(rejected.textures.len(), 17);
    assert!(rejected.textures.iter().all(|texture| !texture.is_locked()));
    let mut sixteen = rejected.textures;
    sixteen.pop();
    let transition = SharedTexture::lock(sixteen, &device).ok().unwrap();
    match transition.call() {
        Some(Call::DxLockObjects { objects, .. }) => {
            let expected: Vec<usize> = (0..16).map(|index| 1002 + 10 * index).collect();
            assert_eq!(objects, expected);
        }
        other => panic!("unexpected call {:?}", other),
    }
}

#[test]
fn textures_of_two_devices_are_refused_before_any_call() {
    let first = device(500);
    let second = device(600);
    let batch = vec![texture(&first, 1, 1000), texture(&second, 2, 2000)];
    let rejected = SharedTexture::lock(batch, &first).err().unwrap();
    assert_eq!(rejected.error, Error::CrossDevice);
    assert_eq!(rejected.textures.len(), 2);
    assert!(rejected.textures.iter().all(|texture| !texture.is_locked()));
    let rejected = SharedTexture::lock(rejected.textures, &second).err().unwrap();
    assert_eq!(rejected.error, Error::CrossDevice);
}

#[test]
fn first_violation_in_the_batch_decides() {
    let first = device(500);
    let second = device(600);
    let stranger = texture(&second, 2, 2000);
    let held = locked(&first, vec![texture(&first, 1, 1000)]).pop().unwrap();
    let rejected = SharedTexture::lock(vec![stranger, held], &first).err().unwrap();
    assert_eq!(rejected.error, Error::CrossDevice);
    let mut batch = rejected.textures;
    batch.reverse();
    let rejected = SharedTexture::lock(batch, &first).err().unwrap();
    assert_eq!(rejected.error, Error::AlreadyLocked);
}

#[test]
fn closed_device_moves_no_texture() {
    let mut device = device(500);
    let batch = vec![texture(&device, 1, 1000)];
    device.close().unwrap();
    let rejected = SharedTexture::lock(batch, &device).err().unwrap();
    assert_eq!(rejected.error, Error::StaleContext);
    let rejected = SharedTexture::unlock(rejected.textures, &device).err().unwrap();
    assert_eq!(rejected.error, Error::AlreadyUnlocked);
}

#[test]
fn empty_batch_needs_no_call() {
    let device = device(500);
    let transition = SharedTexture::lock(Vec::new(), &device).ok().unwrap();
    assert_eq!(transition.call(), None);
    let (textures, outcome) = transition.complete(DriverReply::Failed);
    assert!(textures.is_empty());
    assert_eq!(outcome, Ok(()));
}

fn destroy(texture: SharedTexture, device: &InteropDevice, failing: Option<usize>) -> (
    Vec<DriverCall>,
    Option<Result<(), Error>>,
) {
    let mut destruction = texture.destroy(device).ok().unwrap();
    let mut calls = Vec::new();
    while let Some(call) = destruction.call() {
        let reply = if failing == Some(calls.len()) {
            DriverReply::Failed
        } else {
            DriverReply::Completed
        };
        calls.push(call);
        destruction.resume(reply);
    }
    (calls, destruction.outcome())
}

#[test]
fn unlocked_texture_is_unregistered_then_released() {
    let device = device(500);
    let (calls, outcome) = destroy(texture(&device, 1, 1000), &device, None);
    let expected: Vec<DriverCall> = vec![
        Call::DxUnregisterObject {
            entry: ProcAddress(0x6000),
            device: DxDeviceHandle(500),
            object: DxResourceHandle(1002),
        },
        Call::ReleaseShaderView { view: ShaderView(1001) },
        Call::ReleaseTexture { texture: Texture2d(1000) },
    ];
    assert_eq!(calls, expected);
    assert_eq!(outcome, Some(Ok(())));
}

#[test]
fn locked_texture_is_unlocked_before_it_is_unregistered() {
    let device = device(500);
    let held = locked(&device, vec![texture(&device, 1, 1000)]).pop().unwrap();
    let (calls, outcome) = destroy(held, &device, None);
    let expected: Vec<DriverCall> = vec![
        Call::DxUnlockObjects {
            entry: ProcAddress(0x5000),
            device: DxDeviceHandle(500),
            objects: vec![1002],
        },
        Call::DxUnregisterObject {
            entry: ProcAddress(0x6000),
            device: DxDeviceHandle(500),
            object: DxResourceHandle(1002),
        },
        Call::ReleaseShaderView { view: ShaderView(1001) },
        Call::ReleaseTexture { texture: Texture2d(1000) },
    ];
    assert_eq!(calls, expected);
    assert_eq!(outcome, Some(Ok(())));
}

#[test]
fn failed_call_ends_the_destruction() {
    let device = device(500);
    let held = locked(&device, vec![texture(&device, 1, 1000)]).pop().unwrap();
    let (calls, outcome) = destroy(held, &device, Some(0));
    assert_eq!(calls.len(), 1);
    assert_eq!(outcome, Some(Err(Error::DriverFailure)));
    let (calls, outcome) = destroy(texture(&device, 2, 2000), &device, Some(1));
    assert_eq!(calls.len(), 2);
    assert_eq!(outcome, Some(Err(Error::DriverFailure)));
}

#[test]
fn unfinished_destruction_has_no_outcome() {
    let device = device(500);
    let destruction = texture(&device, 1, 1000).destroy(&device).ok().unwrap();
    assert_eq!(destruction.outcome(), None);
}

#[test]
fn texture_is_destroyed_by_its_own_open_device_only() {
    let first = device(500);
    let mut second = device(600);
    let owned = texture(&first, 1, 1000);
    let (error, owned) = owned.destroy(&second).err().unwrap();
    assert_eq!(error, Error::CrossDevice);
    second.close().unwrap();
    let (error, owned) = owned.destroy(&second).err().unwrap();
    assert_eq!(error, Error::StaleContext);
    assert_eq!(owned.name(), 1);
    assert!(owned.destroy(&first).is_ok());
}
