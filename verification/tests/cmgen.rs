use lantir::cmgen::atlas_fits;
use lantir::brdf::{generate_brdf_lut_image, radical_inverse_vdc};
use lantir::cmgen::{build_prefiltered_atlas, AtlasError, CmgenCubemapLevel};
use lantir::cmgen_files::{
    check_prefiltered_level_count, check_sh_coefficient_count, check_sh_component_count, classify_face_set,
    cmgen_face_file_names, cmgen_face_names, cmgen_level_face_file_names, decimal_string, parse_sh_line,
    scan_prefiltered_levels, sh_file_components, sh_file_verdict, CmgenFilesError,
};
use lantir::image::{blit, RgbaF32Image};

fn texel(v: f32) -> [u32; 4] {
    [v.to_bits(), (v + 1.0).to_bits(), (v + 2.0).to_bits(), 1.0f32.to_bits()]
}

fn filled(size: u32, height: u32, value: f32) -> RgbaF32Image {
    let mut img = RgbaF32Image::new(size, height);
    for y in 0..height {
        for x in 0..size {
            img.put_pixel(x, y, texel(value));
        }
    }
    img
}

fn level(mip_level: u32, size: u32) -> CmgenCubemapLevel {
    CmgenCubemapLevel {
        mip_level,
        faces: [
            filled(size, size, mip_level as f32 * 10.0),
            filled(size, size, mip_level as f32 * 10.0 + 1.0),
            filled(size, size, mip_level as f32 * 10.0 + 2.0),
            filled(size, size, mip_level as f32 * 10.0 + 3.0),
            filled(size, size, mip_level as f32 * 10.0 + 4.0),
            filled(size, size, mip_level as f32 * 10.0 + 5.0),
        ],
    }
}

#[test]
fn generates_brdf_lut() {
    let lut = generate_brdf_lut_image(16, 16);
    assert_eq!(lut.width(), 16);
    assert_eq!(lut.height(), 16);
    for y in 0..16 {
        for x in 0..16 {
            let t = lut.texel_input(x, y);
            assert_eq!((t.ndotv_numerator, t.roughness_numerator, t.denominator), (2 * x as u64 + 1, 2 * y as u64 + 1, 32));
        }
    }
}

#[test]
fn brdf_lut_samples_follow_hammersley_sequence() {
    let lut = generate_brdf_lut_image(4, 8);
    assert_eq!(lut.sample_count(), 8);
    assert_eq!(lut.sample_radical_inverse(0), 0);
    assert_eq!(lut.sample_radical_inverse(1), 0x8000_0000);
    assert_eq!(lut.sample_radical_inverse(2), 0x4000_0000);
    assert_eq!(lut.sample_radical_inverse(3), 0xC000_0000);
    let t = lut.texel_input(1, 2);
    assert_eq!(t.ndotv_numerator, 3);
    assert_eq!(t.roughness_numerator, 5);
    assert_eq!(t.denominator, 8);
}

#[test]
fn radical_inverse_mirrors_bits() {
    assert_eq!(radical_inverse_vdc(1), 0x8000_0000);
    assert_eq!(radical_inverse_vdc(6), 0x6000_0000);
    assert_eq!(radical_inverse_vdc(0xFFFF_FFFF), 0xFFFF_FFFF);
    assert_eq!(radical_inverse_vdc(0x8000_0000), 1);
    for x in [0u32, 1, 2, 12345, 0xDEAD_BEEF, u32::MAX] {
        assert_eq!(radical_inverse_vdc(x), x.reverse_bits());
        assert_eq!(radical_inverse_vdc(radical_inverse_vdc(x)), x);
    }
    let as_float = radical_inverse_vdc(1) as f32 * 2.328_306_4e-10;
    assert!((as_float - 0.5).abs() < 1e-6);
}

#[test]
fn builds_prefiltered_atlas_of_five_levels() {
    let levels: Vec<CmgenCubemapLevel> = (0..5).map(|m| level(m, 256 >> m)).collect();
    let atlas = build_prefiltered_atlas(&levels).expect("build atlas");
    assert_eq!(atlas.width(), 1536);
    assert_eq!(atlas.height(), 496);
}

#[test]
fn atlas_places_faces_side_by_side_level_below_level() {
    let levels = vec![level(0, 4), level(1, 2)];
    let atlas = build_prefiltered_atlas(&levels).expect("build atlas");
    assert_eq!(atlas.width(), 24);
    assert_eq!(atlas.height(), 6);
    assert_eq!(atlas.get_pixel(0, 0), texel(0.0));
    assert_eq!(atlas.get_pixel(5, 3), texel(1.0));
    assert_eq!(atlas.get_pixel(23, 0), texel(5.0));
    assert_eq!(atlas.get_pixel(0, 4), texel(10.0));
    assert_eq!(atlas.get_pixel(3, 5), texel(11.0));
    assert_eq!(atlas.get_pixel(11, 5), texel(15.0));
    assert_eq!(atlas.get_pixel(12, 4), [0, 0, 0, 0]);
    assert_eq!(atlas.get_pixel(23, 5), [0, 0, 0, 0]);
}

#[test]
fn atlas_of_no_levels_is_refused() {
    assert_eq!(build_prefiltered_atlas(&[]).err(), Some(AtlasError::EmptyMipList));
}

#[test]
fn atlas_with_non_square_base_is_refused() {
    let mut l = level(0, 4);
    l.faces[0] = filled(4, 3, 0.0);
    assert_eq!(build_prefiltered_atlas(&[l]).err(), Some(AtlasError::BaseFaceNotSquare));
}

#[test]
fn atlas_with_non_square_level_is_refused() {
    let mut l1 = level(1, 2);
    l1.faces[0] = filled(2, 1, 0.0);
    let levels = vec![level(0, 4), l1];
    assert_eq!(build_prefiltered_atlas(&levels).err(), Some(AtlasError::FaceNotSquare { mip_level: 1 }));
}

#[test]
fn atlas_with_mismatched_face_is_refused() {
    let mut l0 = level(0, 4);
    l0.faces[3] = filled(2, 2, 0.0);
    assert_eq!(
        build_prefiltered_atlas(&[l0]).err(),
        Some(AtlasError::FaceSizeMismatch { mip_level: 0, face: 3 })
    );
}

#[test]
fn blit_copies_face_at_offset() {
    let mut atlas = RgbaF32Image::new(4, 4);
    let face = filled(2, 2, 7.0);
    blit(&mut atlas, &face, 1, 2);
    assert_eq!(atlas.get_pixel(1, 2), texel(7.0));
    assert_eq!(atlas.get_pixel(2, 3), texel(7.0));
    assert_eq!(atlas.get_pixel(0, 2), [0, 0, 0, 0]);
    assert_eq!(atlas.get_pixel(3, 3), [0, 0, 0, 0]);
}

#[test]
fn cmgen_faces_are_named_in_cube_order() {
    assert_eq!(cmgen_face_names(), ["px", "nx", "py", "ny", "pz", "nz"]);
    let names = cmgen_face_file_names("");
    assert_eq!(names, vec!["px.exr", "nx.exr", "py.exr", "ny.exr", "pz.exr", "nz.exr"]);
    let names = cmgen_level_face_file_names(12);
    assert_eq!(names[0], "m12_px.exr");
    assert_eq!(names[5], "m12_nz.exr");
    assert_eq!(cmgen_level_face_file_names(0)[3], "m0_ny.exr");
}

#[test]
fn face_set_presence_is_classified() {
    assert_eq!(classify_face_set(&[false; 6]), Ok(false));
    assert_eq!(classify_face_set(&[true; 6]), Ok(true));
    assert_eq!(
        classify_face_set(&[true, true, false, true, false, false]),
        Err(CmgenFilesError::IncompleteFaceSet { found: 3, expected: 6 })
    );
}

#[test]
fn skybox_needs_a_prefiltered_level() {
    assert_eq!(check_prefiltered_level_count(0), Err(CmgenFilesError::NoPrefilteredLevels));
    assert_eq!(check_prefiltered_level_count(5), Ok(()));
}

#[test]
fn sh_lines_are_parsed_into_components() {
    let parts = parse_sh_line("  (  0.1, -0.25 ,3e-2 ) ; L00").unwrap().unwrap();
    assert_eq!(parts, vec!["0.1", "-0.25", "3e-2"]);
    assert_eq!(parse_sh_line("   \t ").unwrap(), None);
    assert_eq!(parse_sh_line("").unwrap(), None);
    assert_eq!(parse_sh_line("\u{3000}(1,2,3)\u{a0}").unwrap().unwrap(), vec!["1", "2", "3"]);
    assert_eq!(parse_sh_line("(1,,2)").unwrap().unwrap(), vec!["1", "", "2"]);
    assert_eq!(parse_sh_line("(x)").unwrap().unwrap(), vec!["x"]);
}

#[test]
fn malformed_sh_lines_are_refused() {
    assert_eq!(parse_sh_line("1, 2, 3"), Err(CmgenFilesError::InvalidShLine));
    assert_eq!(parse_sh_line("(1, 2, 3"), Err(CmgenFilesError::InvalidShLine));
    assert_eq!(parse_sh_line(") (1, 2, 3"), Err(CmgenFilesError::InvalidShLine));
}

#[test]
fn sh_counts_are_checked() {
    assert_eq!(check_sh_component_count(3), Ok(()));
    assert_eq!(check_sh_component_count(2), Err(CmgenFilesError::WrongComponentCount { count: 2 }));
    assert_eq!(check_sh_coefficient_count(9), Ok(()));
    assert_eq!(check_sh_coefficient_count(8), Err(CmgenFilesError::WrongCoefficientCount { count: 8 }));
}

#[test]
fn atlas_fit_is_checked_before_packing() {
    assert!(atlas_fits(&[level(0, 4), level(1, 2)]));
    assert!(atlas_fits(&[]));
    assert!(!atlas_fits(&[level(0, 4), level(1, 8)]));
    let mut bad = level(1, 2);
    bad.faces[0] = filled(2, 3, 0.0);
    assert!(atlas_fits(&[level(0, 4), bad, level(2, 8)]));
}

#[test]
fn decimal_strings_have_no_leading_zeros() {
    assert_eq!(decimal_string(0), "0");
    assert_eq!(decimal_string(7), "7");
    assert_eq!(decimal_string(10), "10");
    assert_eq!(decimal_string(4096), "4096");
    assert_eq!(decimal_string(u64::MAX), "18446744073709551615");
    assert_eq!(cmgen_level_face_file_names(12)[5], "m12_nz.exr");
}

#[test]
fn prefiltered_levels_stop_at_the_first_absent_set() {
    let full = vec![true; 6];
    let none = vec![false; 6];
    let mut part = vec![true; 6];
    part[4] = false;
    assert_eq!(scan_prefiltered_levels(&[full.clone(), full.clone(), none.clone()]), Ok(2));
    assert_eq!(scan_prefiltered_levels(&[full.clone(), none.clone(), full.clone()]), Ok(1));
    assert_eq!(scan_prefiltered_levels(&[full.clone(), full.clone()]), Ok(2));
    assert_eq!(scan_prefiltered_levels(&[none.clone()]), Err(CmgenFilesError::NoPrefilteredLevels));
    assert_eq!(scan_prefiltered_levels(&[]), Err(CmgenFilesError::NoPrefilteredLevels));
    assert_eq!(
        scan_prefiltered_levels(&[full.clone(), part.clone()]),
        Err(CmgenFilesError::IncompleteFaceSet { found: 5, expected: 6 })
    );
    assert_eq!(scan_prefiltered_levels(&[none, part]), Err(CmgenFilesError::NoPrefilteredLevels));
}

#[test]
fn sh_file_lines_are_scanned_in_order() {
    let text = "(1, 2, 3)\n\n  \n(4,5,6) ; L1\n";
    let (lines, malformed) = sh_file_components(text);
    assert!(!malformed);
    assert_eq!(lines, vec![vec!["1", "2", "3"], vec!["4", "5", "6"]]);
    let (lines, malformed) = sh_file_components("(1,2,3)\nbad\n(4,5,6)");
    assert!(malformed);
    assert_eq!(lines, vec![vec!["1", "2", "3"]]);
    let (lines, malformed) = sh_file_components("");
    assert!(lines.is_empty() && !malformed);
}

#[test]
fn sh_file_needs_nine_lines_of_three() {
    assert_eq!(sh_file_verdict(&[3; 9], None, false), Ok(()));
    assert_eq!(sh_file_verdict(&[3; 8], None, false), Err(CmgenFilesError::WrongCoefficientCount { count: 8 }));
    assert_eq!(sh_file_verdict(&[3; 10], None, false), Err(CmgenFilesError::WrongCoefficientCount { count: 10 }));
    assert_eq!(sh_file_verdict(&[3; 9], None, true), Err(CmgenFilesError::InvalidShLine));
    assert_eq!(sh_file_verdict(&[3, 2, 3], None, true), Err(CmgenFilesError::WrongComponentCount { count: 2 }));
    assert_eq!(sh_file_verdict(&[3, 3, 4], Some(1), false), Err(CmgenFilesError::InvalidShValue));
    assert_eq!(sh_file_verdict(&[2, 3, 3], Some(1), false), Err(CmgenFilesError::WrongComponentCount { count: 2 }));
}
