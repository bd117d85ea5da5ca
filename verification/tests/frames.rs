use zoompan::camera::CropRect;
use zoompan::compositor::{compose, inset_dimensions, inset_offsets, paint_background, paste_inset};
use zoompan::frame::{CanvasFrame, Plane};
use zoompan::gradient::Yuv;
use zoompan::sampler::{extract_region, plane_offsets, presentation_timestamp, PlaneOffsets, TimeBase};

fn numbered_plane(width: usize, height: usize, stride: usize) -> Plane {
    let mut plane = Plane::new(width, height, stride, 0).unwrap();
    for y in 0..height {
        for x in 0..stride {
            plane.set(x, y, (y * 16 + x) as u8);
        }
    }
    plane
}

fn numbered_frame(width: u32, height: u32, base: u8) -> CanvasFrame {
    let mut frame = CanvasFrame::new(width, height).unwrap();
    for y in 0..frame.luma.height {
        for x in 0..frame.luma.width {
            frame.luma.set(x, y, base.wrapping_add((y * 10 + x) as u8));
        }
    }
    for y in 0..frame.chroma_u.height {
        for x in 0..frame.chroma_u.width {
            frame.chroma_u.set(x, y, base.wrapping_add(100 + (y * 10 + x) as u8));
            frame.chroma_v.set(x, y, base.wrapping_add(200 + (y * 10 + x) as u8));
        }
    }
    frame
}

#[test]
fn new_plane_is_filled_and_sized() {
    let plane = Plane::new(3, 2, 4, 9).unwrap();
    assert_eq!(plane, Plane { width: 3, height: 2, stride: 4, data: vec![9; 8] });
    assert!(plane.is_well_formed());
    assert_eq!(Plane::new(0, 0, 0, 1).unwrap().data, vec![]);
    assert_eq!(Plane::new(5, 2, 4, 0), None);
    assert_eq!(Plane::new(1, usize::MAX, 2, 0), None);
}

#[test]
fn plane_well_formedness_is_decided() {
    let mut plane = Plane::new(3, 2, 4, 0).unwrap();
    assert!(plane.is_well_formed());
    plane.data.push(0);
    assert!(!plane.is_well_formed());
    plane.data.truncate(8);
    plane.width = 5;
    assert!(!plane.is_well_formed());
    plane.width = 4;
    plane.height = usize::MAX;
    assert!(!plane.is_well_formed());
}

#[test]
fn plane_offset_is_row_times_stride_plus_column() {
    let plane = Plane::new(3, 4, 5, 0).unwrap();
    assert_eq!(plane.offset(0, 0), 0);
    assert_eq!(plane.offset(2, 0), 2);
    assert_eq!(plane.offset(0, 1), 5);
    assert_eq!(plane.offset(4, 3), 19);
}

#[test]
fn plane_set_changes_one_byte() {
    let mut plane = Plane::new(2, 2, 3, 0).unwrap();
    plane.set(1, 1, 7);
    assert_eq!(plane.data, vec![0, 0, 0, 0, 7, 0]);
    assert_eq!(plane.get(1, 1), 7);
    assert_eq!(plane.get(0, 1), 0);
    plane.set(2, 0, 5);
    assert_eq!(plane.data, vec![0, 0, 5, 0, 7, 0]);
}

#[test]
fn plane_copy_moves_a_rectangle() {
    let source = numbered_plane(4, 3, 5);
    let mut target = Plane::new(6, 4, 6, 255).unwrap();
    target.copy_from(&source, 1, 1, 2, 0, 3, 2);
    assert_eq!(
        target.data,
        vec![
            255, 255, 17, 18, 19, 255, //
            255, 255, 33, 34, 35, 255, //
            255, 255, 255, 255, 255, 255, //
            255, 255, 255, 255, 255, 255,
        ]
    );
    let before = target.clone();
    target.copy_from(&source, 0, 0, 0, 0, 0, 3);
    assert_eq!(target, before);
}

#[test]
fn plane_paint_repeats_the_row_and_spares_the_padding() {
    let mut plane = Plane::new(3, 2, 4, 9).unwrap();
    plane.paint_columns(&vec![1, 2, 3, 4]);
    assert_eq!(plane.data, vec![1, 2, 3, 9, 1, 2, 3, 9]);
}

#[test]
fn plane_region_is_cut_without_padding() {
    let source = numbered_plane(4, 3, 5);
    let cut = source.region(1, 1, 2, 2);
    assert_eq!(cut, Plane { width: 2, height: 2, stride: 2, data: vec![17, 18, 33, 34] });
    let all = source.region(0, 0, 4, 3);
    assert_eq!(all.data, vec![0, 1, 2, 3, 16, 17, 18, 19, 32, 33, 34, 35]);
    assert_eq!(source.region(4, 3, 0, 0).data, vec![]);
}

#[test]
fn new_frame_is_black_with_half_sized_chroma() {
    let frame = CanvasFrame::new(5, 3).unwrap();
    assert!(frame.is_well_formed());
    assert_eq!(frame.luma, Plane { width: 5, height: 3, stride: 5, data: vec![0; 15] });
    assert_eq!(frame.chroma_u, Plane { width: 3, height: 2, stride: 3, data: vec![128; 6] });
    assert_eq!(frame.chroma_v, Plane { width: 3, height: 2, stride: 3, data: vec![128; 6] });
    assert_eq!(frame.pts, None);
    let empty = CanvasFrame::new(0, 0).unwrap();
    assert!(empty.is_well_formed());
    assert_eq!(empty.luma.data, vec![]);
}

#[test]
fn frame_well_formedness_checks_the_plane_sizes() {
    let mut frame = CanvasFrame::new(4, 4).unwrap();
    assert!(frame.is_well_formed());
    frame.chroma_u = Plane::new(3, 2, 3, 0).unwrap();
    assert!(!frame.is_well_formed());
    frame.chroma_u = Plane::new(2, 2, 8, 0).unwrap();
    assert!(frame.is_well_formed());
    frame.width = 5;
    assert!(!frame.is_well_formed());
}

#[test]
fn inset_is_eight_tenths_and_centred() {
    assert_eq!(inset_dimensions(1920, 1080), (1536, 864));
    assert_eq!(inset_dimensions(1917, 7), (1533, 5));
    assert_eq!(inset_dimensions(0, 1), (0, 0));
    assert_eq!(inset_dimensions(u32::MAX, u32::MAX), (3_435_973_836, 3_435_973_836));
    assert_eq!(inset_offsets(1920, 1080, 1536, 864), (192, 108));
    assert_eq!(inset_offsets(10, 10, 7, 10), (1, 0));
}

#[test]
fn background_paints_every_row_alike() {
    let mut canvas = CanvasFrame::new(5, 3).unwrap();
    let row: Vec<Yuv> =
        (0..5u8).map(|x| Yuv { y: 10 + x, u: 20 + x, v: 30 + x }).collect();
    canvas.pts = Some(4);
    paint_background(&mut canvas, &row);
    assert_eq!(canvas.luma.data, vec![10, 11, 12, 13, 14, 10, 11, 12, 13, 14, 10, 11, 12, 13, 14]);
    // chroma takes the even columns 0, 2 and 4
    assert_eq!(canvas.chroma_u.data, vec![20, 22, 24, 20, 22, 24]);
    assert_eq!(canvas.chroma_v.data, vec![30, 32, 34, 30, 32, 34]);
    assert_eq!(canvas.pts, Some(4));
}

#[test]
fn inset_is_pasted_into_the_centre() {
    let mut canvas = CanvasFrame::new(8, 6).unwrap();
    let inset = numbered_frame(4, 2, 1);
    paste_inset(&mut canvas, &inset);
    // offsets: (8 - 4) / 2 = 2 and (6 - 2) / 2 = 2
    assert_eq!(
        canvas.luma.data,
        vec![
            0, 0, 0, 0, 0, 0, 0, 0, //
            0, 0, 0, 0, 0, 0, 0, 0, //
            0, 0, 1, 2, 3, 4, 0, 0, //
            0, 0, 11, 12, 13, 14, 0, 0, //
            0, 0, 0, 0, 0, 0, 0, 0, //
            0, 0, 0, 0, 0, 0, 0, 0,
        ]
    );
    // chroma: two by one samples at (1, 1)
    assert_eq!(
        canvas.chroma_u.data,
        vec![
            128, 128, 128, 128, //
            128, 101, 102, 128, //
            128, 128, 128, 128,
        ]
    );
    assert_eq!(
        canvas.chroma_v.data,
        vec![
            128, 128, 128, 128, //
            128, 201, 202, 128, //
            128, 128, 128, 128,
        ]
    );
}

#[test]
fn odd_insets_keep_their_last_chroma_column() {
    let mut canvas = CanvasFrame::new(7, 5).unwrap();
    let inset = numbered_frame(3, 3, 1);
    paste_inset(&mut canvas, &inset);
    // offsets (2, 1): chroma at (1, 0), two by two samples
    assert_eq!(
        canvas.chroma_u.data,
        vec![
            128, 101, 102, 128, //
            128, 111, 112, 128, //
            128, 128, 128, 128,
        ]
    );
    assert_eq!(canvas.luma.get(2, 1), 1);
    assert_eq!(canvas.luma.get(4, 3), 23);
    assert_eq!(canvas.luma.get(5, 3), 0);
}

#[test]
fn composing_paints_then_pastes() {
    let mut canvas = CanvasFrame::new(4, 4).unwrap();
    let row: Vec<Yuv> = (0..4u8).map(|x| Yuv { y: 50 + x, u: 60 + x, v: 70 + x }).collect();
    let inset = numbered_frame(2, 2, 1);
    compose(&mut canvas, &row, &inset);
    assert_eq!(
        canvas.luma.data,
        vec![
            50, 51, 52, 53, //
            50, 1, 2, 53, //
            50, 11, 12, 53, //
            50, 51, 52, 53,
        ]
    );
    // the inset's chroma sample lands at half the offset (1, 1) / 2
    assert_eq!(canvas.chroma_u.data, vec![101, 62, 60, 62]);
    assert_eq!(canvas.chroma_v.data, vec![201, 72, 70, 72]);
}

#[test]
fn region_holds_the_samples_inside_the_crop() {
    let mut canvas = numbered_frame(8, 6, 0);
    canvas.pts = Some(77);
    let region = extract_region(&canvas, &CropRect { left: 2, top: 2, width: 4, height: 2 });
    assert!(region.is_well_formed());
    assert_eq!((region.width, region.height, region.pts), (4, 2, Some(77)));
    assert_eq!(region.luma.data, vec![22, 23, 24, 25, 32, 33, 34, 35]);
    assert_eq!(region.chroma_u.data, vec![111, 112]);
    assert_eq!(region.chroma_v.data, vec![211, 212]);
    // odd coordinates: chroma is cut at the even pair below
    let region = extract_region(&canvas, &CropRect { left: 3, top: 1, width: 2, height: 2 });
    assert_eq!(region.luma.data, vec![13, 14, 23, 24]);
    assert_eq!(region.chroma_u.data, vec![101]);
}

#[test]
fn cropping_the_whole_canvas_gives_the_canvas() {
    let mut canvas = numbered_frame(6, 4, 3);
    canvas.pts = Some(5);
    let region = extract_region(&canvas, &CropRect { left: 0, top: 0, width: 6, height: 4 });
    assert_eq!(region, canvas);
    // padding is dropped, the samples stay
    let mut padded = CanvasFrame::new(2, 2).unwrap();
    padded.luma = Plane { width: 2, height: 2, stride: 3, data: vec![1, 2, 99, 3, 4, 99] };
    let region = extract_region(&padded, &CropRect { left: 0, top: 0, width: 2, height: 2 });
    assert_eq!(region.luma.data, vec![1, 2, 3, 4]);
}

#[test]
fn plane_offsets_follow_the_strides() {
    let mut canvas = CanvasFrame::new(8, 6).unwrap();
    canvas.luma = Plane::new(8, 6, 16, 0).unwrap();
    canvas.chroma_u = Plane::new(4, 3, 8, 0).unwrap();
    canvas.chroma_v = Plane::new(4, 3, 4, 0).unwrap();
    assert_eq!(
        plane_offsets(&canvas, &CropRect { left: 2, top: 4, width: 4, height: 2 }),
        PlaneOffsets { luma: 4 * 16 + 2, chroma_u: 2 * 8 + 1, chroma_v: 2 * 4 + 1 }
    );
    assert_eq!(
        plane_offsets(&canvas, &CropRect { left: 3, top: 5, width: 1, height: 1 }),
        PlaneOffsets { luma: 5 * 16 + 3, chroma_u: 2 * 8 + 1, chroma_v: 2 * 4 + 1 }
    );
}

#[test]
fn timestamps_are_rescaled_to_the_nearest_tick() {
    let sixtieth = TimeBase { num: 1, den: 60 };
    let fine = TimeBase { num: 1, den: 15360 };
    assert_eq!(presentation_timestamp(0, sixtieth, fine), Some(0));
    assert_eq!(presentation_timestamp(30, sixtieth, fine), Some(7680));
    assert_eq!(presentation_timestamp(7, sixtieth, sixtieth), Some(7));
    // 1 * 1000 / 60 = 16.67, 2 * 1000 / 60 = 33.33
    let milli = TimeBase { num: 1, den: 1000 };
    assert_eq!(presentation_timestamp(1, sixtieth, milli), Some(17));
    assert_eq!(presentation_timestamp(2, sixtieth, milli), Some(33));
    // halves go up: 1 * 1 / 2 and 3 * 1 / 2
    let whole = TimeBase { num: 1, den: 1 };
    let double = TimeBase { num: 2, den: 1 };
    assert_eq!(presentation_timestamp(1, whole, double), Some(1));
    assert_eq!(presentation_timestamp(3, whole, double), Some(2));
    assert_eq!(presentation_timestamp(5, TimeBase { num: 0, den: 1 }, whole), Some(0));
}

#[test]
fn timestamps_need_usable_time_bases() {
    let whole = TimeBase { num: 1, den: 1 };
    assert_eq!(presentation_timestamp(1, TimeBase { num: 1, den: 0 }, whole), None);
    assert_eq!(presentation_timestamp(1, whole, TimeBase { num: 0, den: 1 }), None);
    assert_eq!(presentation_timestamp(1, TimeBase { num: -1, den: 1 }, whole), None);
    assert_eq!(presentation_timestamp(1, TimeBase { num: 1, den: -1 }, whole), None);
    assert_eq!(presentation_timestamp(0, TimeBase { num: -1, den: -1 }, whole), None);
    let huge = TimeBase { num: i32::MAX, den: 1 };
    let tiny = TimeBase { num: 1, den: i32::MAX };
    // 4294967295 * (2^31 - 1)^2 does not fit in 64 bits
    assert_eq!(presentation_timestamp(u32::MAX, huge, tiny), None);
    assert_eq!(presentation_timestamp(1, huge, tiny), Some(4_611_686_014_132_420_609));
}
