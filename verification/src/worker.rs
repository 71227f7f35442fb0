//! The decisions of a fetch worker.
//!
//! A worker resolves one admitted coordinate. It looks at the disk once
//! more, downloads the tile if the disk has none, reports the outcome to the
//! memory tier, writes a downloaded tile to disk, and gives up its slot. The
//! caller runs these steps on a thread of its own; this module decides what
//! each step is.

use crate::codec::{decode_png, decoded_tile, encode_png, encoded_tile};
use crate::coord::TileCoord;
use crate::disk::DiskLoad;
use image::DynamicImage;
use vstd::prelude::*;

verus! {

/// The time after which a transfer is given up, in seconds.
pub const FETCH_TIMEOUT_SECS: u64 = 10;

/// The name under which a worker presents itself to the tile server.
pub const USER_AGENT: &'static str = "SecureNotesApp/0.1.0";

/// Why a fetch yielded no tile.
#[derive(Clone, Copy, Debug, PartialEq, Eq, Structural)]
pub enum FetchFailure {
    /// The transfer failed or timed out.
    Transport,
    /// The server answered with a status other than success.
    Status,
    /// The server's answer holds no tile.
    Decode,
}

/// What came of a transfer.
#[derive(Clone, Debug, PartialEq, Eq)]
pub enum Transfer {
    /// No answer arrived.
    Failed,
    /// The server answered.
    Replied {
        /// Whether the status of the answer is a success.
        success: bool,
        /// The body of the answer.
        body: Vec<u8>,
    },
}

/// What is to become of a tile's file when a fetch is over.
#[derive(Clone, Debug, PartialEq, Eq)]
pub enum FileUpdate {
    /// The file stays as it is: the tile came from it, or there is no tile.
    Keep,
    /// The file gets these contents: the downloaded tile.
    Write(Vec<u8>),
    /// The downloaded tile could not be encoded: there is nothing to write,
    /// and the memory tier has the tile all the same.
    Unencodable,
}

/// What a worker reports when its fetch is over.
#[derive(Clone, Debug, PartialEq)]
pub struct WorkerResult {
    /// The outcome for the memory tier: the tile, or nothing after a failure.
    pub tile: Option<DynamicImage>,
    /// The reason of a failure, for the log.
    pub failure: Option<FetchFailure>,
    /// What to do with the tile's file once the outcome is recorded.
    pub file: FileUpdate,
}

/// What is to become of the file of a downloaded tile that was encoded to
/// `encoded`.
pub open spec fn update_of(encoded: Option<Vec<u8>>) -> FileUpdate {
    match encoded {
        Some(bytes) => FileUpdate::Write(bytes),
        None => FileUpdate::Unencodable,
    }
}

impl WorkerResult {
    /// The report of a worker that found the tile on disk.
    pub fn cached(img: DynamicImage) -> (result: WorkerResult)
        ensures
            result == (WorkerResult { tile: Some(img), failure: None, file: FileUpdate::Keep }),
    {
        WorkerResult { tile: Some(img), failure: None, file: FileUpdate::Keep }
    }

    /// The report of a worker that downloaded the tile, with what encoding
    /// the tile for its file gave.
    pub fn fetched(img: DynamicImage, encoded: Option<Vec<u8>>) -> (result: WorkerResult)
        ensures
            result == (WorkerResult { tile: Some(img), failure: None, file: update_of(encoded) }),
    {
        let file = match encoded {
            Some(bytes) => FileUpdate::Write(bytes),
            None => FileUpdate::Unencodable,
        };
        WorkerResult { tile: Some(img), failure: None, file }
    }

    /// The report of a worker whose fetch failed.
    pub fn failed(failure: FetchFailure) -> (result: WorkerResult)
        ensures
            result == (WorkerResult { tile: None, failure: Some(failure), file: FileUpdate::Keep }),
    {
        WorkerResult { tile: None, failure: Some(failure), file: FileUpdate::Keep }
    }
}

/// What a worker does after its look at the disk.
#[derive(Clone, Debug, PartialEq)]
pub enum FetchPlan {
    /// The disk had the tile: the fetch is over.
    Done(WorkerResult),
    /// The disk had no tile: download it.
    Download {
        /// The address of the tile.
        url: String,
        /// Whether the tile's file is to be removed first.
        discard_file: bool,
    },
}

/// Whether `plan` is what a worker for `coord` does when the disk has `load`:
/// a tile on disk ends the fetch and is not written again; otherwise the
/// tile is downloaded from its address, after a corrupt file was removed.
pub open spec fn is_plan_for(plan: FetchPlan, coord: TileCoord, load: DiskLoad) -> bool {
    match load {
        DiskLoad::Loaded(img) => plan == FetchPlan::Done(
            WorkerResult { tile: Some(img), failure: None, file: FileUpdate::Keep },
        ),
        DiskLoad::Corrupt => plan matches FetchPlan::Download { url, discard_file }
            && url@ == coord.url_spec() && discard_file,
        DiskLoad::Missing => plan matches FetchPlan::Download { url, discard_file }
            && url@ == coord.url_spec() && !discard_file,
    }
}

/// What an answer is worth whose status was `success` and whose body decoded
/// to `decoded`.
pub open spec fn settled(success: bool, decoded: Option<DynamicImage>) -> Result<
    DynamicImage,
    FetchFailure,
> {
    if !success {
        Err(FetchFailure::Status)
    } else {
        match decoded {
            Some(img) => Ok(img),
            None => Err(FetchFailure::Decode),
        }
    }
}

/// What a transfer is worth.
pub open spec fn outcome_of(transfer: Transfer) -> Result<DynamicImage, FetchFailure> {
    match transfer {
        Transfer::Failed => Err(FetchFailure::Transport),
        Transfer::Replied { success, body } => settled(success, decoded_tile(body@)),
    }
}

/// Whether `file` is what becomes of the file of a downloaded tile whose
/// encoding gave `encoded`: the encoded tile is written, and a tile that
/// cannot be encoded is not.
pub open spec fn is_update_for(file: FileUpdate, encoded: Option<Seq<u8>>) -> bool {
    match encoded {
        Some(bytes) => file matches FileUpdate::Write(written) && written@ == bytes,
        None => file == FileUpdate::Unencodable,
    }
}

/// Whether `result` is the report of a worker whose download gave
/// `transfer`: after a failure, nothing but the reason; otherwise the
/// decoded tile, to be written to its file as the encoder renders it.
pub open spec fn is_report_of(result: WorkerResult, transfer: Transfer) -> bool {
    match outcome_of(transfer) {
        Ok(img) => result.tile == Some(img) && result.failure is None && is_update_for(
            result.file,
            encoded_tile(img),
        ),
        Err(failure) => result == (WorkerResult {
            tile: None,
            failure: Some(failure),
            file: FileUpdate::Keep,
        }),
    }
}

/// Decides what a worker for `coord` does after its look at the disk.
pub fn plan_fetch(coord: TileCoord, load: DiskLoad) -> (plan: FetchPlan)
    ensures
        is_plan_for(plan, coord, load),
{
    match load {
        DiskLoad::Loaded(img) => FetchPlan::Done(WorkerResult::cached(img)),
        DiskLoad::Corrupt => FetchPlan::Download { url: coord.url(), discard_file: true },
        DiskLoad::Missing => FetchPlan::Download { url: coord.url(), discard_file: false },
    }
}

/// Judges an answer by its status and by what its body decoded to.
pub fn settle(success: bool, decoded: Option<DynamicImage>) -> (outcome: Result<
    DynamicImage,
    FetchFailure,
>)
    ensures
        outcome == settled(success, decoded),
{
    if !success {
        Err(FetchFailure::Status)
    } else {
        match decoded {
            Some(img) => Ok(img),
            None => Err(FetchFailure::Decode),
        }
    }
}

/// Ends a download: decodes the body of a successful answer, and encodes
/// the tile for its file. A tile that cannot be encoded is still reported;
/// it is then not written to disk.
pub fn conclude(transfer: Transfer) -> (result: WorkerResult)
    ensures
        is_report_of(result, transfer),
{
    match transfer {
        Transfer::Failed => WorkerResult::failed(FetchFailure::Transport),
        Transfer::Replied { success, body } => {
            let decoded = if success {
                decode_png(body.as_slice())
            } else {
                None
            };
            match settle(success, decoded) {
                Ok(img) => {
                    assert(decoded_tile(body@) == Some(img));
                    let encoded = encode_png(&img);
                    WorkerResult::fetched(img, encoded)
                },
                Err(failure) => WorkerResult::failed(failure),
            }
        },
    }
}

} // verus!
