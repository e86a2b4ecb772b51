use face_detect::codec::{decode_image, encode_jpeg, render_and_encode};
use face_detect::error::PipelineError;
use face_detect::overlay::PixelRect;
use face_detect::pipeline::{next_stage, Endpoint, Stage};
use face_detect::raster::Raster;

fn png_bytes(w: u32, h: u32, samples: Vec<u8>) -> Vec<u8> {
    let img: image::RgbImage = image::ImageBuffer::from_raw(w, h, samples).unwrap();
    let mut out = std::io::Cursor::new(Vec::new());
    img.write_to(&mut out, image::ImageFormat::Png).unwrap();
    out.into_inner()
}

#[test]
fn non_image_bytes_are_a_client_error() {
    let err = decode_image(b"not an image").unwrap_err();
    assert_eq!(err, PipelineError::Decode);
    assert_eq!(err.http_status(), 400);
    assert!(err.is_client_error());
}

#[test]
fn server_side_errors_are_500() {
    for e in [
        PipelineError::EngineInit,
        PipelineError::MalformedEngineOutput,
        PipelineError::EngineRuntime,
        PipelineError::Encode,
    ] {
        assert_eq!(e.http_status(), 500);
        assert!(!e.is_client_error());
    }
}

#[test]
fn png_decodes_to_its_samples() {
    let samples: Vec<u8> = (0..18u8).collect();
    let img = decode_image(&png_bytes(3, 2, samples.clone())).unwrap();
    assert_eq!((img.width, img.height), (3, 2));
    assert_eq!(img.pixels, samples);
}

#[test]
fn jpeg_encoding_round_trips_the_size() {
    let img = Raster::from_rgb(8, 4, vec![128; 96]).unwrap();
    let bytes = encode_jpeg(&img).unwrap();
    assert_eq!(&bytes[..2], &[0xFF, 0xD8]);
    let back = decode_image(&bytes).unwrap();
    assert_eq!((back.width, back.height), (8, 4));
}

#[test]
fn jpeg_refuses_an_empty_image() {
    let img = Raster::from_rgb(0, 4, vec![]).unwrap();
    assert_eq!(encode_jpeg(&img).unwrap_err(), PipelineError::Encode);
}

#[test]
fn overlay_response_is_repeatable() {
    let img = Raster::from_rgb(16, 16, vec![200; 768]).unwrap();
    let rects = vec![PixelRect { left: 2, top: 3, width: 8, height: 6 }];
    let a = render_and_encode(&img, &rects).unwrap();
    let b = render_and_encode(&img, &rects).unwrap();
    assert_eq!(a, b);
    let plain = encode_jpeg(&img).unwrap();
    assert_ne!(a, plain);
}

#[test]
fn stages_of_both_endpoints() {
    let mut s = Stage::Received;
    let mut seen = vec![s];
    while s != Stage::Responded {
        s = next_stage(Endpoint::Overlay, s, true);
        seen.push(s);
    }
    assert_eq!(
        seen,
        vec![
            Stage::Received,
            Stage::Decoding,
            Stage::Detecting,
            Stage::Rendering,
            Stage::Encoding,
            Stage::Responded
        ]
    );
    assert_eq!(next_stage(Endpoint::Bboxes, Stage::Detecting, true), Stage::Encoding);
    assert_eq!(next_stage(Endpoint::Bboxes, Stage::Decoding, false), Stage::Failed);
    assert_eq!(next_stage(Endpoint::Overlay, Stage::Failed, true), Stage::Failed);
    assert_eq!(next_stage(Endpoint::Overlay, Stage::Responded, false), Stage::Responded);
}
