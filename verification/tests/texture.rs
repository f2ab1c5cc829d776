use lens_flare::gl_wrapper::command::Command;
use lens_flare::gl_wrapper::texture::{TexStorage, Texture2d, TextureFormat};

#[test]
fn pixel_layouts_have_the_codes_of_the_context() {
    assert_eq!(u32::from(TextureFormat::Rgb), gl::RGB);
    assert_eq!(u32::from(TextureFormat::Rgba), gl::RGBA);
    assert_eq!(u32::from(TextureFormat::Srgba), gl::RGBA);
    assert_eq!(u32::from(TextureFormat::R8), gl::RED);
}

#[test]
fn storage_formats_have_the_codes_of_the_context() {
    assert_eq!(TextureFormat::Rgb.internal_format(), gl::RGBA8);
    assert_eq!(TextureFormat::Rgba.internal_format(), gl::RGBA8);
    assert_eq!(TextureFormat::Srgba.internal_format(), gl::SRGB_ALPHA);
    assert_eq!(TextureFormat::R8.internal_format(), gl::R8);
}

#[test]
fn element_types_have_the_codes_of_the_context() {
    assert_eq!(<u8 as TexStorage>::gl_type(), gl::UNSIGNED_BYTE);
    assert_eq!(<u32 as TexStorage>::gl_type(), gl::FLOAT);
}

#[test]
fn a_buffer_fits_when_it_holds_every_channel_of_every_pixel() {
    assert!(Texture2d::fits(12, 2, 2, TextureFormat::Rgb));
    assert!(Texture2d::fits(16, 2, 2, TextureFormat::Rgba));
    assert!(Texture2d::fits(16, 2, 2, TextureFormat::Srgba));
    assert!(Texture2d::fits(4, 2, 2, TextureFormat::R8));
    assert!(Texture2d::fits(0, 0, 7, TextureFormat::Rgba));
    assert!(!Texture2d::fits(15, 2, 2, TextureFormat::Rgba));
    assert!(!Texture2d::fits(12, 2, 2, TextureFormat::Rgba));
    assert!(!Texture2d::fits(0, 65536, 65536, TextureFormat::Rgba));
    assert!(!Texture2d::fits(0, 32768, 32768, TextureFormat::Rgba));
}

#[test]
fn a_texture_is_stored_and_then_filled() {
    let data = [0u8; 24];
    let (texture, commands) = Texture2d::new(9, 3, 2, &data, TextureFormat::Rgba);
    assert_eq!(texture.id(), 9);
    assert_eq!(
        commands,
        vec![
            Command::BindTexture { texture: 9 },
            Command::AllocateStorage { format: TextureFormat::Rgba, width: 3, height: 2 },
            Command::Upload {
                format: TextureFormat::Rgba,
                data_type: gl::UNSIGNED_BYTE,
                width: 3,
                height: 2,
                len: 24,
            },
        ]
    );
}

#[test]
fn a_texture_of_numbers_is_filled_as_single_precision() {
    let data: Vec<u32> = [0.0f32, 0.5, 1.0].iter().map(|v| v.to_bits()).collect();
    let (_, commands) = Texture2d::new(9, 1, 1, &data, TextureFormat::Rgb);
    assert_eq!(
        commands[2],
        Command::Upload {
            format: TextureFormat::Rgb,
            data_type: gl::FLOAT,
            width: 1,
            height: 1,
            len: 3,
        }
    );
}

#[test]
fn bind_binds_the_texture_on_the_unit() {
    let data = [0u8; 1];
    let (texture, _) = Texture2d::new(9, 1, 1, &data, TextureFormat::R8);
    assert_eq!(texture.bind(2), Command::BindTextureAt { unit: 2, texture: 9 });
}

#[test]
fn release_deletes_the_texture() {
    let data = [0u8; 1];
    let (texture, _) = Texture2d::new(9, 1, 1, &data, TextureFormat::R8);
    assert_eq!(texture.release(), Command::DeleteTexture { id: 9 });
}
