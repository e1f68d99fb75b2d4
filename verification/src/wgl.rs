//! The rendering API's side of the interop: the extension entry points, the
//! constants that the extension defines, and the requests that negotiate a
//! surface format and a modern rendering context.

use crate::driver::{Call, DriverCall};
use crate::handles::{D3dDevice, DxDeviceHandle, DxResourceHandle, Hdc, Hglrc, ProcAddress, Texture2d};
use vstd::prelude::*;

verus! {

pub type GLenum = u32;

pub type GLuint = u32;

pub type GLint = i32;

pub const CONTEXT_MAJOR_VERSION_ARB: GLenum = 0x2091;

pub const CONTEXT_MINOR_VERSION_ARB: GLenum = 0x2092;

pub const CONTEXT_PROFILE_MASK_ARB: GLenum = 0x9126;

pub const CONTEXT_CORE_PROFILE_BIT_ARB: GLenum = 0x00000001;

pub const CONTEXT_FLAGS_ARB: GLenum = 0x2094;

pub const CONTEXT_FORWARD_COMPATIBLE_BIT_ARB: GLenum = 0x00000002;

pub const ACCESS_READ_ONLY_NV: GLenum = 0x00000000;

pub const ACCESS_READ_WRITE_NV: GLenum = 0x00000001;

pub const ACCESS_WRITE_DISCARD_NV: GLenum = 0x00000002;

pub const TEXTURE_2D: GLenum = 0x0DE1;

pub const RENDERBUFFER: GLenum = 0x8D41;

pub const PFD_DOUBLEBUFFER: u32 = 0x01;

pub const PFD_DRAW_TO_WINDOW: u32 = 0x04;

pub const PFD_SUPPORT_OPENGL: u32 = 0x20;

pub const PFD_TYPE_RGBA: u8 = 0;

pub const PFD_MAIN_PLANE: i8 = 0;

/// What the rendering side may do with a registered texture.
#[derive(Clone, Copy, Debug, PartialEq, Eq, Structural)]
pub enum Access {
    ReadOnly,
    ReadWrite,
    WriteDiscard,
}

impl Access {
    pub open spec fn hint_spec(self) -> GLenum {
        match self {
            Access::ReadOnly => ACCESS_READ_ONLY_NV,
            Access::ReadWrite => ACCESS_READ_WRITE_NV,
            Access::WriteDiscard => ACCESS_WRITE_DISCARD_NV,
        }
    }

    /// The access hint that registration passes to the interop channel.
    pub fn hint(self) -> (hint: GLenum)
        ensures
            hint == self.hint_spec(),
    {
        match self {
            Access::ReadOnly => ACCESS_READ_ONLY_NV,
            Access::ReadWrite => ACCESS_READ_WRITE_NV,
            Access::WriteDiscard => ACCESS_WRITE_DISCARD_NV,
        }
    }
}

/// The kind of rendering-API object that a shared texture appears as.
#[derive(Clone, Copy, Debug, PartialEq, Eq, Structural)]
pub enum ObjectKind {
    Texture2d,
    Renderbuffer,
}

impl ObjectKind {
    pub open spec fn target_spec(self) -> GLenum {
        match self {
            ObjectKind::Texture2d => TEXTURE_2D,
            ObjectKind::Renderbuffer => RENDERBUFFER,
        }
    }

    /// The object type that registration passes to the interop channel.
    pub fn target(self) -> (target: GLenum)
        ensures
            target == self.target_spec(),
    {
        match self {
            ObjectKind::Texture2d => TEXTURE_2D,
            ObjectKind::Renderbuffer => RENDERBUFFER,
        }
    }
}

/// The surface format that a rendering context asks for.
#[derive(Clone, Copy, Debug, PartialEq, Eq, Structural)]
pub struct PixelFormatRequest {
    pub flags: u32,
    pub pixel_type: u8,
    pub layer_type: i8,
    pub color_bits: u8,
    pub depth_bits: u8,
    pub stencil_bits: u8,
}

impl PixelFormatRequest {
    /// A double-buffered window surface that the rendering API can draw to,
    /// with 32 colour bits, 24 depth bits and 8 stencil bits.
    pub open spec fn standard_spec() -> PixelFormatRequest {
        PixelFormatRequest {
            flags: 0x25,
            pixel_type: PFD_TYPE_RGBA,
            layer_type: PFD_MAIN_PLANE,
            color_bits: 32,
            depth_bits: 24,
            stencil_bits: 8,
        }
    }

    pub fn standard() -> (request: PixelFormatRequest)
        ensures
            request == Self::standard_spec(),
            request.flags & PFD_SUPPORT_OPENGL != 0,
            request.flags & PFD_DRAW_TO_WINDOW != 0,
            request.flags & PFD_DOUBLEBUFFER != 0,
    {
        let flags: u32 = PFD_SUPPORT_OPENGL | PFD_DRAW_TO_WINDOW | PFD_DOUBLEBUFFER;
        assert(flags == 0x25 && flags & 0x20 != 0 && flags & 0x04 != 0 && flags & 0x01 != 0) by (bit_vector)
            requires
                flags == 0x20u32 | 0x04u32 | 0x01u32,
        ;
        PixelFormatRequest {
            flags,
            pixel_type: PFD_TYPE_RGBA,
            layer_type: PFD_MAIN_PLANE,
            color_bits: 32,
            depth_bits: 24,
            stencil_bits: 8,
        }
    }
}

/// The version and profile that a modern rendering context is created with.
#[derive(Clone, Copy, Debug, PartialEq, Eq, Structural)]
pub struct ContextAttributes {
    pub major: u32,
    pub minor: u32,
    pub profile_mask: u32,
    pub flags: u32,
}

impl ContextAttributes {
    /// Version 4.6, core profile, forward compatible.
    pub open spec fn modern_spec() -> ContextAttributes {
        ContextAttributes {
            major: 4,
            minor: 6,
            profile_mask: CONTEXT_CORE_PROFILE_BIT_ARB,
            flags: CONTEXT_FORWARD_COMPATIBLE_BIT_ARB,
        }
    }

    pub fn modern() -> (attributes: ContextAttributes)
        ensures
            attributes == Self::modern_spec(),
    {
        ContextAttributes {
            major: 4,
            minor: 6,
            profile_mask: CONTEXT_CORE_PROFILE_BIT_ARB,
            flags: CONTEXT_FORWARD_COMPATIBLE_BIT_ARB,
        }
    }

    /// The attributes as the entry point reads them: pairs of a key and a
    /// value, closed by a zero.
    pub open spec fn list_spec(self) -> Seq<GLenum> {
        seq![
            CONTEXT_MAJOR_VERSION_ARB,
            self.major,
            CONTEXT_MINOR_VERSION_ARB,
            self.minor,
            CONTEXT_PROFILE_MASK_ARB,
            self.profile_mask,
            CONTEXT_FLAGS_ARB,
            self.flags,
            0,
        ]
    }

    pub fn to_list(&self) -> (list: Vec<GLenum>)
        ensures
            list@ == self.list_spec(),
    {
        let mut list: Vec<GLenum> = Vec::new();
        list.push(CONTEXT_MAJOR_VERSION_ARB);
        list.push(self.major);
        list.push(CONTEXT_MINOR_VERSION_ARB);
        list.push(self.minor);
        list.push(CONTEXT_PROFILE_MASK_ARB);
        list.push(self.profile_mask);
        list.push(CONTEXT_FLAGS_ARB);
        list.push(self.flags);
        list.push(0);
        assert(list@ =~= self.list_spec());
        list
    }
}

/// The extension entry points that the pipeline cannot work without.
#[allow(non_camel_case_types)]
#[derive(Clone, Copy, Debug, PartialEq, Eq, Structural)]
pub enum EntryPoint {
    CreateContextAttribsARB,
    DXOpenDeviceNV,
    DXRegisterObjectNV,
    DXLockObjectsNV,
    DXUnlockObjectsNV,
    DXUnregisterObjectNV,
    DXCloseDeviceNV,
}

impl EntryPoint {
    pub open spec fn symbol_spec(self) -> Seq<char> {
        match self {
            EntryPoint::CreateContextAttribsARB => "wglCreateContextAttribsARB"@,
            EntryPoint::DXOpenDeviceNV => "wglDXOpenDeviceNV"@,
            EntryPoint::DXRegisterObjectNV => "wglDXRegisterObjectNV"@,
            EntryPoint::DXLockObjectsNV => "wglDXLockObjectsNV"@,
            EntryPoint::DXUnlockObjectsNV => "wglDXUnlockObjectsNV"@,
            EntryPoint::DXUnregisterObjectNV => "wglDXUnregisterObjectNV"@,
            EntryPoint::DXCloseDeviceNV => "wglDXCloseDeviceNV"@,
        }
    }

    /// The name under which the driver exports the entry point.
    pub fn symbol(self) -> (name: &'static str)
        ensures
            name@ == self.symbol_spec(),
    {
        match self {
            EntryPoint::CreateContextAttribsARB => "wglCreateContextAttribsARB",
            EntryPoint::DXOpenDeviceNV => "wglDXOpenDeviceNV",
            EntryPoint::DXRegisterObjectNV => "wglDXRegisterObjectNV",
            EntryPoint::DXLockObjectsNV => "wglDXLockObjectsNV",
            EntryPoint::DXUnlockObjectsNV => "wglDXUnlockObjectsNV",
            EntryPoint::DXUnregisterObjectNV => "wglDXUnregisterObjectNV",
            EntryPoint::DXCloseDeviceNV => "wglDXCloseDeviceNV",
        }
    }
}

/// The addresses that the driver gave for the entry points, zero where it
/// has none.
#[derive(Clone, Copy, Debug, PartialEq, Eq, Structural)]
pub struct ProcTable {
    pub create_context_attribs: usize,
    pub dx_open_device: usize,
    pub dx_register_object: usize,
    pub dx_lock_objects: usize,
    pub dx_unlock_objects: usize,
    pub dx_unregister_object: usize,
    pub dx_close_device: usize,
}

impl ProcTable {
    pub open spec fn address(self, entry: EntryPoint) -> usize {
        match entry {
            EntryPoint::CreateContextAttribsARB => self.create_context_attribs,
            EntryPoint::DXOpenDeviceNV => self.dx_open_device,
            EntryPoint::DXRegisterObjectNV => self.dx_register_object,
            EntryPoint::DXLockObjectsNV => self.dx_lock_objects,
            EntryPoint::DXUnlockObjectsNV => self.dx_unlock_objects,
            EntryPoint::DXUnregisterObjectNV => self.dx_unregister_object,
            EntryPoint::DXCloseDeviceNV => self.dx_close_device,
        }
    }

    /// The first entry point, in the order of their declaration, that the
    /// driver lacks.
    pub open spec fn missing(self) -> Option<EntryPoint> {
        if self.create_context_attribs == 0 {
            Some(EntryPoint::CreateContextAttribsARB)
        } else if self.dx_open_device == 0 {
            Some(EntryPoint::DXOpenDeviceNV)
        } else if self.dx_register_object == 0 {
            Some(EntryPoint::DXRegisterObjectNV)
        } else if self.dx_lock_objects == 0 {
            Some(EntryPoint::DXLockObjectsNV)
        } else if self.dx_unlock_objects == 0 {
            Some(EntryPoint::DXUnlockObjectsNV)
        } else if self.dx_unregister_object == 0 {
            Some(EntryPoint::DXUnregisterObjectNV)
        } else if self.dx_close_device == 0 {
            Some(EntryPoint::DXCloseDeviceNV)
        } else {
            None
        }
    }
}

/// The resolved entry points of one rendering context. Every address in it
/// is non-zero.
#[derive(Clone, Copy, Debug, PartialEq, Eq)]
pub struct Wgl {
    table: ProcTable,
}

impl View for Wgl {
    type V = ProcTable;

    closed spec fn view(&self) -> ProcTable {
        self.table
    }
}

#[allow(non_snake_case)]
impl Wgl {
    #[verifier::type_invariant]
    spec fn complete(self) -> bool {
        self.table.missing() is None
    }

    /// Builds the table from what the driver resolved while the rendering
    /// context was current. A driver that lacks an entry point has no table.
    pub fn from_current_context(resolved: ProcTable) -> (table: Result<Wgl, EntryPoint>)
        ensures
            match table {
                Ok(wgl) => resolved.missing() is None && wgl@ == resolved,
                Err(entry) => resolved.missing() == Some(entry),
            },
    {
        if resolved.create_context_attribs == 0 {
            Err(EntryPoint::CreateContextAttribsARB)
        } else if resolved.dx_open_device == 0 {
            Err(EntryPoint::DXOpenDeviceNV)
        } else if resolved.dx_register_object == 0 {
            Err(EntryPoint::DXRegisterObjectNV)
        } else if resolved.dx_lock_objects == 0 {
            Err(EntryPoint::DXLockObjectsNV)
        } else if resolved.dx_unlock_objects == 0 {
            Err(EntryPoint::DXUnlockObjectsNV)
        } else if resolved.dx_unregister_object == 0 {
            Err(EntryPoint::DXUnregisterObjectNV)
        } else if resolved.dx_close_device == 0 {
            Err(EntryPoint::DXCloseDeviceNV)
        } else {
            Ok(Wgl { table: resolved })
        }
    }

    /// The addresses of the table.
    pub fn addresses(&self) -> (table: ProcTable)
        ensures
            table == self@,
            table.missing() is None,
    {
        proof {
            use_type_invariant(self);
        }
        self.table
    }

    /// The call that creates a rendering context with the given attributes.
    pub fn CreateContextAttribsARB(
        &self,
        dc: Hdc,
        share_context: Option<Hglrc>,
        attributes: ContextAttributes,
    ) -> (call: DriverCall)
        ensures
            call@ == Self::create_context_attribs(self@, dc, share_context, attributes),
    {
        Call::CreateContextAttribs {
            entry: ProcAddress(self.table.create_context_attribs),
            dc,
            share: share_context,
            attributes,
        }
    }

    pub open spec fn create_context_attribs(
        table: ProcTable,
        dc: Hdc,
        share_context: Option<Hglrc>,
        attributes: ContextAttributes,
    ) -> Call<Seq<usize>> {
        Call::CreateContextAttribs {
            entry: ProcAddress(table.create_context_attribs),
            dc,
            share: share_context,
            attributes,
        }
    }

    /// The call that opens an interop channel to a presentation device.
    pub fn DXOpenDeviceNV(&self, device: D3dDevice) -> (call: DriverCall)
        ensures
            call@ == Self::dx_open_device(self@, device),
    {
        Call::DxOpenDevice { entry: ProcAddress(self.table.dx_open_device), device }
    }

    pub open spec fn dx_open_device(table: ProcTable, device: D3dDevice) -> Call<Seq<usize>> {
        Call::DxOpenDevice { entry: ProcAddress(table.dx_open_device), device }
    }

    /// The call that registers a texture of the presentation device with an
    /// interop channel under a name of the rendering API.
    pub fn DXRegisterObjectNV(
        &self,
        device: DxDeviceHandle,
        object: Texture2d,
        name: GLuint,
        kind: GLenum,
        access: GLenum,
    ) -> (call: DriverCall)
        ensures
            call@ == Self::dx_register_object(self@, device, object, name, kind, access),
    {
        Call::DxRegisterObject {
            entry: ProcAddress(self.table.dx_register_object),
            device,
            object,
            name,
            kind,
            access,
        }
    }

    pub open spec fn dx_register_object(
        table: ProcTable,
        device: DxDeviceHandle,
        object: Texture2d,
        name: GLuint,
        kind: GLenum,
        access: GLenum,
    ) -> Call<Seq<usize>> {
        Call::DxRegisterObject {
            entry: ProcAddress(table.dx_register_object),
            device,
            object,
            name,
            kind,
            access,
        }
    }

    /// The call that hands the listed objects to the rendering side.
    pub fn DXLockObjectsNV(&self, device: DxDeviceHandle, objects: Vec<usize>) -> (call: DriverCall)
        ensures
            call@ == Self::dx_lock_objects(self@, device, objects@),
    {
        Call::DxLockObjects { entry: ProcAddress(self.table.dx_lock_objects), device, objects }
    }

    pub open spec fn dx_lock_objects(
        table: ProcTable,
        device: DxDeviceHandle,
        objects: Seq<usize>,
    ) -> Call<Seq<usize>> {
        Call::DxLockObjects { entry: ProcAddress(table.dx_lock_objects), device, objects }
    }

    /// The call that hands the listed objects to the presentation side.
    pub fn DXUnlockObjectsNV(&self, device: DxDeviceHandle, objects: Vec<usize>) -> (call:
        DriverCall)
        ensures
            call@ == Self::dx_unlock_objects(self@, device, objects@),
    {
        Call::DxUnlockObjects { entry: ProcAddress(self.table.dx_unlock_objects), device, objects }
    }

    pub open spec fn dx_unlock_objects(
        table: ProcTable,
        device: DxDeviceHandle,
        objects: Seq<usize>,
    ) -> Call<Seq<usize>> {
        Call::DxUnlockObjects { entry: ProcAddress(table.dx_unlock_objects), device, objects }
    }

    /// The call that takes a registered object out of an interop channel.
    pub fn DXUnregisterObjectNV(&self, device: DxDeviceHandle, object: DxResourceHandle) -> (call:
        DriverCall)
        ensures
            call@ == Self::dx_unregister_object(self@, device, object),
    {
        Call::DxUnregisterObject {
            entry: ProcAddress(self.table.dx_unregister_object),
            device,
            object,
        }
    }

    pub open spec fn dx_unregister_object(
        table: ProcTable,
        device: DxDeviceHandle,
        object: DxResourceHandle,
    ) -> Call<Seq<usize>> {
        Call::DxUnregisterObject { entry: ProcAddress(table.dx_unregister_object), device, object }
    }

    /// The call that closes an interop channel.
    pub fn DXCloseDeviceNV(&self, device: DxDeviceHandle) -> (call: DriverCall)
        ensures
            call@ == Self::dx_close_device(self@, device),
    {
        Call::DxCloseDevice { entry: ProcAddress(self.table.dx_close_device), device }
    }

    pub open spec fn dx_close_device(table: ProcTable, device: DxDeviceHandle) -> Call<Seq<usize>> {
        Call::DxCloseDevice { entry: ProcAddress(table.dx_close_device), device }
    }
}

} // verus!
