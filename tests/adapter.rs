use face_detect::bbox::{from_engine_output, BBox};
use face_detect::error::PipelineError;
use face_detect::raster::Raster;

fn same(a: &BBox<f32>, x1: f32, y1: f32, x2: f32, y2: f32, prob: f32) -> bool {
    a.x1 == x1 && a.y1 == y1 && a.x2 == x2 && a.y2 == y2 && a.prob == prob
}

#[test]
fn engine_output_fields_are_reordered() {
    let boxes: Vec<f32> = vec![1.0, 2.0, 3.0, 4.0, 5.0, 6.0, 7.0, 8.0];
    let scores: Vec<f32> = vec![0.9, 0.25];
    let out = from_engine_output(&boxes, &scores).unwrap();
    assert_eq!(out.len(), 2);
    assert!(same(&out[0], 2.0, 1.0, 4.0, 3.0, 0.9));
    assert!(same(&out[1], 6.0, 5.0, 8.0, 7.0, 0.25));
}

#[test]
fn engine_output_empty_gives_no_boxes() {
    let boxes: Vec<f32> = vec![];
    let scores: Vec<f32> = vec![];
    assert_eq!(from_engine_output(&boxes, &scores).unwrap().len(), 0);
}

#[test]
fn engine_output_partial_box_is_malformed() {
    let boxes: Vec<f32> = vec![1.0, 2.0, 3.0, 4.0, 5.0];
    let scores: Vec<f32> = vec![0.5];
    assert_eq!(
        from_engine_output(&boxes, &scores).unwrap_err(),
        PipelineError::MalformedEngineOutput
    );
}

#[test]
fn engine_output_count_mismatch_is_malformed() {
    let boxes: Vec<f32> = vec![1.0, 2.0, 3.0, 4.0, 5.0, 6.0, 7.0, 8.0];
    let scores: Vec<f32> = vec![0.5, 0.6, 0.7];
    assert_eq!(
        from_engine_output(&boxes, &scores).unwrap_err(),
        PipelineError::MalformedEngineOutput
    );
    let fewer: Vec<f32> = vec![0.5];
    assert_eq!(
        from_engine_output(&boxes, &fewer).unwrap_err(),
        PipelineError::MalformedEngineOutput
    );
}

#[test]
fn engine_input_is_bgr_in_scan_order() {
    // 2 wide, 2 high
    let img = Raster::from_rgb(2, 2, vec![1, 2, 3, 4, 5, 6, 7, 8, 9, 10, 11, 12]).unwrap();
    let buf = img.to_engine_input();
    assert_eq!(buf.len(), 3 * 2 * 2);
    assert_eq!(buf, vec![3, 2, 1, 6, 5, 4, 9, 8, 7, 12, 11, 10]);
}

#[test]
fn engine_input_of_empty_image_is_empty() {
    let img = Raster::from_rgb(0, 7, vec![]).unwrap();
    assert!(img.to_engine_input().is_empty());
}

#[test]
fn raster_with_wrong_sample_count_is_refused() {
    assert_eq!(
        Raster::from_rgb(2, 2, vec![0; 11]).unwrap_err(),
        PipelineError::Decode
    );
    assert_eq!(
        Raster::from_rgb(u32::MAX, u32::MAX, vec![0; 3]).unwrap_err(),
        PipelineError::Decode
    );
    assert!(Raster::from_rgb(2, 2, vec![0; 12]).is_ok());
}
