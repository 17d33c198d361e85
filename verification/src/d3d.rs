//! Device creation with its fallback to the software rasterizer, and the
//! description of the texture that holds the image.

use vstd::prelude::*;

verus! {

/// Device flag: the device can share surfaces in BGRA formats.
pub const CREATE_DEVICE_BGRA_SUPPORT: u32 = 0x20;

/// Device flag: the device is created with the debug layer.
pub const CREATE_DEVICE_DEBUG: u32 = 0x2;

/// The failure code with which a driver reports that it is not available.
pub const DXGI_ERROR_UNSUPPORTED: i32 = -2005270524;

/// Texture usage: read and written by the GPU.
pub const USAGE_DEFAULT: i32 = 0;

/// Texture binding: readable from a shader.
pub const BIND_SHADER_RESOURCE: u32 = 8;

/// The kind of driver a device is created on.
#[derive(Clone, Copy, Debug, PartialEq, Eq, Structural)]
pub enum DriverType {
    /// The GPU's own driver.
    Hardware,
    /// The software rasterizer.
    Warp,
}

/// The flags a device is created with.
pub open spec fn creation_flags(debug: bool) -> u32 {
    if debug {
        0x22
    } else {
        0x20
    }
}

/// The driver to try after `tried` failed with `code`, if there is one:
/// the software rasterizer, and only after the hardware driver reported
/// itself as unsupported.
pub open spec fn spec_fallback_driver(tried: DriverType, code: i32) -> Option<DriverType> {
    if tried == DriverType::Hardware && code == DXGI_ERROR_UNSUPPORTED {
        Some(DriverType::Warp)
    } else {
        None
    }
}

/// What device creation returns, given what the hardware attempt returned.
/// A success or any failure but "unsupported" is final; after "unsupported"
/// the result is whatever the attempt on the software rasterizer returns.
pub open spec fn device_outcome<D, E, A, C>(
    attempt: A,
    code_of: C,
    flags: u32,
    first: Result<D, E>,
    r: Result<D, E>,
) -> bool where A: Fn(DriverType, u32) -> Result<D, E>, C: Fn(&E) -> i32 {
    match first {
        Ok(_) => r == first,
        Err(error) => exists|code: i32|
            {
                &&& #[trigger] code_of.ensures((&error,), code)
                &&& match spec_fallback_driver(DriverType::Hardware, code) {
                    Some(driver) => attempt.ensures((driver, flags), r),
                    None => r == first,
                }
            },
    }
}

/// The flags a device is created with: BGRA support always, the debug layer
/// on request.
pub fn device_creation_flags(debug: bool) -> (r: u32)
    ensures
        r == creation_flags(debug),
        r == if debug {
            CREATE_DEVICE_BGRA_SUPPORT | CREATE_DEVICE_DEBUG
        } else {
            CREATE_DEVICE_BGRA_SUPPORT
        },
{
    assert(0x20u32 | 0x2u32 == 0x22u32) by (bit_vector);
    if debug {
        CREATE_DEVICE_BGRA_SUPPORT | CREATE_DEVICE_DEBUG
    } else {
        CREATE_DEVICE_BGRA_SUPPORT
    }
}

/// The driver to try after `tried` failed with `code`, if there is one.
/// No failure of the software rasterizer leads to another attempt.
pub fn fallback_driver(tried: DriverType, code: i32) -> (r: Option<DriverType>)
    ensures
        r == spec_fallback_driver(tried, code),
        tried == DriverType::Warp ==> r.is_none(),
{
    match tried {
        DriverType::Hardware => if code == DXGI_ERROR_UNSUPPORTED {
            Some(DriverType::Warp)
        } else {
            None
        },
        DriverType::Warp => None,
    }
}

/// Whatever the failure codes are, a fallback is taken at most once: the
/// driver that follows a failed attempt is followed by none.
pub proof fn lemma_fallback_is_final(tried: DriverType, code: i32, next_code: i32)
    ensures
        match spec_fallback_driver(tried, code) {
            Some(next) => next == DriverType::Warp && spec_fallback_driver(next, next_code)
                is None,
            None => tried == DriverType::Warp || code != DXGI_ERROR_UNSUPPORTED,
        },
{
}

/// Creates a device: first on the hardware driver, and once more on the
/// software rasterizer where the hardware driver is unsupported.
///
/// `attempt` makes one try on the given driver with the given flags;
/// `code_of` reads the failure code of an error.
pub fn create_d3d_device<D, E, A, C>(debug: bool, attempt: A, code_of: C) -> (r: Result<
    D,
    E,
>) where A: Fn(DriverType, u32) -> Result<D, E>, C: Fn(&E) -> i32
    requires
        forall|driver: DriverType| #[trigger] attempt.requires((driver, creation_flags(debug))),
        forall|error: &E| #[trigger] code_of.requires((error,)),
    ensures
        exists|first: Result<D, E>|
            {
                &&& #[trigger] attempt.ensures(
                    (DriverType::Hardware, creation_flags(debug)),
                    first,
                )
                &&& device_outcome(attempt, code_of, creation_flags(debug), first, r)
            },
{
    let flags: u32 = device_creation_flags(debug);
    match attempt(DriverType::Hardware, flags) {
        Ok(device) => Ok(device),
        Err(error) => {
            let code: i32 = code_of(&error);
            match fallback_driver(DriverType::Hardware, code) {
                Some(driver) => attempt(driver, flags),
                None => Err(error),
            }
        },
    }
}

/// What a two-dimensional texture is created as.
#[derive(Clone, Copy, Debug, PartialEq, Eq, Structural)]
pub struct TextureDesc {
    pub width: u32,
    pub height: u32,
    pub mip_levels: u32,
    pub array_size: u32,
    pub format: i32,
    pub sample_count: u32,
    pub sample_quality: u32,
    pub usage: i32,
    pub bind_flags: u32,
    pub cpu_access_flags: u32,
    pub misc_flags: u32,
}

/// How the bytes that fill a texture are laid out.
#[derive(Clone, Copy, Debug, PartialEq, Eq, Structural)]
pub struct InitialData {
    /// Bytes from the start of one row to the start of the next.
    pub pitch: u32,
    /// Bytes in one depth slice: the low 32 bits of the buffer's length.
    pub slice_pitch: u32,
}

/// The description of a texture that a shader reads: one mip level, one
/// array slice, one sample per pixel, GPU-only access.
pub open spec fn spec_texture_desc(width: u32, height: u32, pixel_format: i32) -> TextureDesc {
    TextureDesc {
        width,
        height,
        mip_levels: 1,
        array_size: 1,
        format: pixel_format,
        sample_count: 1,
        sample_quality: 0,
        usage: USAGE_DEFAULT,
        bind_flags: BIND_SHADER_RESOURCE,
        cpu_access_flags: 0,
        misc_flags: 0,
    }
}

/// The layout of a buffer of `len` bytes whose rows are `stride` bytes apart.
pub open spec fn spec_initial_data(stride: u32, len: nat) -> InitialData {
    InitialData { pitch: stride, slice_pitch: (len % 0x1_0000_0000) as u32 }
}

/// The description of a shader-readable texture of the given size and format.
pub fn texture_desc(width: u32, height: u32, pixel_format: i32) -> (r: TextureDesc)
    ensures
        r == spec_texture_desc(width, height, pixel_format),
{
    TextureDesc {
        width,
        height,
        mip_levels: 1,
        array_size: 1,
        format: pixel_format,
        sample_count: 1,
        sample_quality: 0,
        usage: USAGE_DEFAULT,
        bind_flags: BIND_SHADER_RESOURCE,
        cpu_access_flags: 0,
        misc_flags: 0,
    }
}

/// The layout of a buffer of `len` bytes whose rows are `stride` bytes apart.
pub fn initial_data(stride: u32, len: usize) -> (r: InitialData)
    ensures
        r == spec_initial_data(stride, len as nat),
{
    let low: u64 = (len as u64) % 0x1_0000_0000u64;
    InitialData { pitch: stride, slice_pitch: low as u32 }
}

/// Creates a texture of the given size and format, filled from `bytes`.
///
/// `create` makes the texture from its description, the layout of the
/// initial data and the data itself; its result is handed back as it comes.
pub fn create_texture_from_bytes<T, E, F>(
    width: u32,
    height: u32,
    pixel_format: i32,
    stride: u32,
    bytes: &[u8],
    create: F,
) -> (r: Result<T, E>) where F: FnOnce(&TextureDesc, &InitialData, &[u8]) -> Result<T, E>
    requires
        create.requires(
            (
                &spec_texture_desc(width, height, pixel_format),
                &spec_initial_data(stride, bytes@.len()),
                bytes,
            ),
        ),
    ensures
        create.ensures(
            (
                &spec_texture_desc(width, height, pixel_format),
                &spec_initial_data(stride, bytes@.len()),
                bytes,
            ),
            r,
        ),
{
    let desc = texture_desc(width, height, pixel_format);
    let init = initial_data(stride, bytes.len());
    create(&desc, &init, bytes)
}

} // verus!
