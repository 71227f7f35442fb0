use image::{DynamicImage, ImageFormat};
use secure_notes::coord::TileCoord;
use secure_notes::disk::{classify, load_cached, DiskLoad, DiskProbe};
use secure_notes::worker::{
    conclude, plan_fetch, settle, FetchFailure, FetchPlan, FileUpdate, Transfer, WorkerResult,
    FETCH_TIMEOUT_SECS, USER_AGENT,
};
use std::io::Cursor;

fn pixel(red: u8) -> DynamicImage {
    let mut img = image::RgbImage::new(1, 1);
    img.put_pixel(0, 0, image::Rgb([red, 20, 30]));
    DynamicImage::ImageRgb8(img)
}

fn png_of(img: &DynamicImage) -> Vec<u8> {
    let mut out = Cursor::new(Vec::new());
    img.write_to(&mut out, ImageFormat::Png).unwrap();
    out.into_inner()
}

#[test]
fn transport_constants() {
    assert_eq!(FETCH_TIMEOUT_SECS, 10);
    assert_eq!(USER_AGENT, "SecureNotesApp/0.1.0");
}

#[test]
fn missing_file_is_missing() {
    assert_eq!(load_cached(DiskProbe::Missing), DiskLoad::Missing);
}

#[test]
fn unreadable_file_counts_as_corrupt() {
    assert_eq!(load_cached(DiskProbe::Unreadable), DiskLoad::Corrupt);
}

#[test]
fn garbage_on_disk_is_corrupt() {
    assert_eq!(load_cached(DiskProbe::Found(vec![1, 2, 3, 4])), DiskLoad::Corrupt);
    assert_eq!(load_cached(DiskProbe::Found(Vec::new())), DiskLoad::Corrupt);
}

#[test]
fn truncated_png_on_disk_is_corrupt() {
    let mut bytes = png_of(&pixel(7));
    bytes.truncate(20);
    assert_eq!(load_cached(DiskProbe::Found(bytes)), DiskLoad::Corrupt);
}

#[test]
fn png_on_disk_is_decoded() {
    let img = pixel(200);
    let load = load_cached(DiskProbe::Found(png_of(&img)));
    match load {
        DiskLoad::Loaded(found) => {
            assert_eq!(found.width(), 1);
            assert_eq!(found.height(), 1);
            assert_eq!(found.to_rgb8().get_pixel(0, 0).0, [200, 20, 30]);
        }
        other => panic!("not loaded: {:?}", other),
    }
}

#[test]
fn classify_follows_the_decoder() {
    assert_eq!(classify(None), DiskLoad::Corrupt);
    assert_eq!(classify(Some(pixel(1))), DiskLoad::Loaded(pixel(1)));
}

#[test]
fn plan_with_tile_on_disk_skips_the_network() {
    let coord = TileCoord { x: 5, y: 6, z: 7 };
    let plan = plan_fetch(coord, DiskLoad::Loaded(pixel(9)));
    assert_eq!(
        plan,
        FetchPlan::Done(WorkerResult { tile: Some(pixel(9)), failure: None, file: FileUpdate::Keep })
    );
}

#[test]
fn plan_without_file_downloads() {
    let coord = TileCoord { x: 5, y: 6, z: 7 };
    assert_eq!(
        plan_fetch(coord, DiskLoad::Missing),
        FetchPlan::Download {
            url: String::from("https://tile.openstreetmap.org/7/5/6.png"),
            discard_file: false
        }
    );
}

#[test]
fn plan_with_corrupt_file_removes_it_and_downloads() {
    let coord = TileCoord { x: -5, y: 6, z: 7 };
    assert_eq!(
        plan_fetch(coord, DiskLoad::Corrupt),
        FetchPlan::Download {
            url: String::from("https://tile.openstreetmap.org/7/-5/6.png"),
            discard_file: true
        }
    );
}

#[test]
fn settle_each_case() {
    assert_eq!(settle(false, None), Err(FetchFailure::Status));
    assert_eq!(settle(false, Some(pixel(1))), Err(FetchFailure::Status));
    assert_eq!(settle(true, None), Err(FetchFailure::Decode));
    assert_eq!(settle(true, Some(pixel(1))), Ok(pixel(1)));
}

#[test]
fn failed_transfer_is_a_transport_failure() {
    assert_eq!(conclude(Transfer::Failed), WorkerResult::failed(FetchFailure::Transport));
    assert_eq!(
        WorkerResult::failed(FetchFailure::Transport),
        WorkerResult { tile: None, failure: Some(FetchFailure::Transport), file: FileUpdate::Keep }
    );
}

#[test]
fn error_status_is_a_status_failure_whatever_the_body() {
    let body = png_of(&pixel(3));
    assert_eq!(
        conclude(Transfer::Replied { success: false, body }),
        WorkerResult { tile: None, failure: Some(FetchFailure::Status), file: FileUpdate::Keep }
    );
}

#[test]
fn undecodable_body_is_a_decode_failure() {
    let body = b"<html>not a tile</html>".to_vec();
    assert_eq!(
        conclude(Transfer::Replied { success: true, body }),
        WorkerResult { tile: None, failure: Some(FetchFailure::Decode), file: FileUpdate::Keep }
    );
    assert_eq!(
        conclude(Transfer::Replied { success: true, body: Vec::new() }),
        WorkerResult::failed(FetchFailure::Decode)
    );
}

#[test]
fn good_body_yields_the_tile_and_its_file() {
    let img = pixel(77);
    let result = conclude(Transfer::Replied { success: true, body: png_of(&img) });
    assert_eq!(result.failure, None);
    let tile = result.tile.expect("a tile");
    assert_eq!(tile.to_rgb8().get_pixel(0, 0).0, [77, 20, 30]);
    assert_eq!((tile.width(), tile.height()), (1, 1));
    match result.file {
        FileUpdate::Write(bytes) => {
            assert_eq!(&bytes[..8], b"\x89PNG\r\n\x1a\n");
            assert_eq!(load_cached(DiskProbe::Found(bytes)), DiskLoad::Loaded(tile));
        }
        other => panic!("nothing to write: {:?}", other),
    }
}

#[test]
fn reports_are_built_as_documented() {
    assert_eq!(
        WorkerResult::cached(pixel(4)),
        WorkerResult { tile: Some(pixel(4)), failure: None, file: FileUpdate::Keep }
    );
    assert_eq!(
        WorkerResult::fetched(pixel(4), Some(vec![1, 2])),
        WorkerResult { tile: Some(pixel(4)), failure: None, file: FileUpdate::Write(vec![1, 2]) }
    );
    assert_eq!(
        WorkerResult::fetched(pixel(4), None),
        WorkerResult { tile: Some(pixel(4)), failure: None, file: FileUpdate::Unencodable }
    );
}
