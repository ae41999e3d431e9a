use astcenc_rs::config::{FLAG_DECOMPRESS_ONLY, FLAG_MAP_NORMAL, FLAG_USE_ALPHA_WEIGHT, FLAG_USE_PERCEPTUAL};
use astcenc_rs::{ConfigBuilder, ConfigRequest, Error, Extents, Flags, Preset, Profile};

#[test]
fn default_builder_requests_ldr_medium_4x4() {
    let r = ConfigBuilder::default().request();
    assert_eq!(
        r,
        ConfigRequest { profile: 1, block_x: 4, block_y: 4, block_z: 1, effort: 60, flags: 4 }
    );
    assert_eq!(ConfigBuilder::new().request(), r);
}

#[test]
fn default_builder_builds_on_success() {
    let c = ConfigBuilder::new().build(0).unwrap();
    assert_eq!(c.block_size(), Extents::new(4, 4));
    assert_eq!(c.profile(), Profile::LdrRgba);
    assert_eq!(c.preset(), Preset { effort: 60 });
    assert_eq!(c.flags().bits, FLAG_USE_ALPHA_WEIGHT);
}

#[test]
fn setters_override_settings() {
    let mut b = ConfigBuilder::new();
    b.profile(Profile::HdrRgba).preset(Preset { effort: 100 });
    b.block_size(Extents::new_3d(3, 3, 3));
    let r = b.request();
    assert_eq!(
        r,
        ConfigRequest { profile: 3, block_x: 3, block_y: 3, block_z: 3, effort: 100, flags: 4 }
    );
}

#[test]
fn consuming_setters_override_settings() {
    let b = ConfigBuilder::new()
        .with_profile(Profile::LdrSrgb)
        .with_preset(Preset { effort: 10 })
        .with_block_size(Extents::new(12, 12));
    let c = b.build(0).unwrap();
    assert_eq!(c.profile(), Profile::LdrSrgb);
    assert_eq!(c.preset().effort, 10);
    assert_eq!(c.block_size(), Extents::new(12, 12));
}

#[test]
fn build_passes_engine_errors_through() {
    assert!(matches!(ConfigBuilder::new().build(4), Err(Error::BadBlockSize)));
    assert!(matches!(ConfigBuilder::new().build(5), Err(Error::BadProfile)));
    assert!(matches!(ConfigBuilder::new().build(6), Err(Error::BadQuality)));
    assert!(matches!(ConfigBuilder::new().build(77), Err(Error::Unknown)));
}

#[test]
fn build_takes_zero_block_depth_as_one() {
    let b = ConfigBuilder::new().with_block_size(Extents::new_3d(4, 4, 0));
    let c = b.build(0).unwrap();
    assert_eq!(c.block_size(), Extents::new_3d(4, 4, 1));
}

#[test]
fn build_refuses_zero_block_width_or_height() {
    let b = ConfigBuilder::new().with_block_size(Extents::new_3d(0, 4, 1));
    assert!(matches!(b.build(0), Err(Error::BadBlockSize)));
    let b = ConfigBuilder::new().with_block_size(Extents::new_3d(4, 0, 1));
    assert!(matches!(b.build(0), Err(Error::BadBlockSize)));
}

#[test]
fn profile_codes() {
    assert_eq!(Profile::LdrSrgb.into_sys(), 0);
    assert_eq!(Profile::LdrRgba.into_sys(), 1);
    assert_eq!(Profile::HdrRgbLdrA.into_sys(), 2);
    assert_eq!(Profile::HdrRgba.into_sys(), 3);
    assert_eq!(Profile::default(), Profile::LdrRgba);
}

#[test]
fn flags_combine_as_bits() {
    let f = Flags { bits: FLAG_MAP_NORMAL }.union(Flags { bits: FLAG_USE_PERCEPTUAL });
    assert_eq!(f.into_sys(), 9);
    assert_eq!(Flags::default().into_sys(), 4);
    assert_eq!(Flags { bits: FLAG_DECOMPRESS_ONLY }.into_sys(), 16);
}

#[test]
fn preset_default_is_medium() {
    assert_eq!(Preset::default().effort, 60);
}
