use termvideo::filter::FilterType;
use termvideo::resample::{plan_resample, ResampleError, ResamplePlan};

#[test]
fn plan_checks_geometry_and_length() {
    assert_eq!(
        plan_resample(0, (0, 4), (10, 4), FilterType::Nearest),
        Err(ResampleError::EmptyGeometry)
    );
    assert_eq!(
        plan_resample(160, (10, 4), (10, 0), FilterType::Nearest),
        Err(ResampleError::EmptyGeometry)
    );
    assert_eq!(
        plan_resample(160, (10, 4), (70_000, 70_000), FilterType::Box),
        Err(ResampleError::TooLarge)
    );
    assert_eq!(
        plan_resample(159, (10, 4), (5, 2), FilterType::Box),
        Err(ResampleError::LengthMismatch)
    );
    assert_eq!(
        plan_resample(160, (10, 4), (5, 2), FilterType::Box),
        Ok(ResamplePlan { in_w: 10, in_h: 4, out_w: 5, out_h: 2, filter: FilterType::Box })
    );
}

#[test]
fn workgroups_cover_the_output_in_tiles_of_eight() {
    let p = plan_resample(160, (10, 4), (17, 8), FilterType::Gaussian).unwrap();
    assert_eq!(p.workgroups(), (3, 1));
    assert_eq!(p.output_len(), 17 * 8 * 4);
}

#[test]
fn uniform_block_layout() {
    let p = plan_resample(160, (10, 4), (20, 8), FilterType::Lanczos).unwrap();
    let bits = 2.5f32.to_bits();
    assert_eq!(p.uniform_words(bits), [10, 4, 20, 8, 3, bits]);
    let bytes = p.uniform_bytes(bits);
    assert_eq!(bytes.len(), 24);
    let word = |i: usize| u32::from_ne_bytes([bytes[4 * i], bytes[4 * i + 1], bytes[4 * i + 2], bytes[4 * i + 3]]);
    assert_eq!(word(0), 10);
    assert_eq!(word(3), 8);
    assert_eq!(word(4), 3);
    assert_eq!(word(5), bits);
}

#[test]
fn output_of_exact_length_is_accepted() {
    let p = plan_resample(160, (10, 4), (3, 2), FilterType::Bilinear).unwrap();
    let ok = p.accept_output(vec![7u8; 24]);
    assert_eq!(ok, Some(vec![7u8; 24]));
    assert_eq!(p.accept_output(vec![7u8; 23]), None);
    assert_eq!(p.accept_output(vec![7u8; 28]), None);
}
