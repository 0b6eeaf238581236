use vstd::prelude::*;

use crate::cover::{
    check_cover_size, cover_error, cover_relative_path, detected_image, has_parent_segment,
    is_managed_parts, is_plain_cover_path, is_portable_path, lower_hex, managed_cover_path,
    plan_cover_file, portable_parts, sha256_digest, starts_at_root, superseded_cover, CoverFile,
    MAX_COVER_BYTES,
};
use crate::error::AppError;
use crate::models::CoverAsset;

verus! {

/// Where the storing of a chosen cover stands: which step its last action was.
#[derive(Debug, Clone, Copy, PartialEq, Eq, Structural)]
pub enum UploadStage {
    /// Reading the size of the chosen file.
    Measuring,
    /// Reading its bytes.
    Reading,
    /// Reading the cover the series has now.
    LoadingCurrent,
    /// Asking whether the content file is already stored.
    Probing,
    /// Writing the bytes to a temporary file beside the content file.
    Writing,
    /// Renaming the temporary file to the content file.
    Moving,
    /// Recording the asset and setting it as the series' cover.
    Saving,
    /// Deleting the record of the previous cover if nothing refers to it.
    Releasing,
    /// Removing the previous cover's file.
    Removing,
    /// Nothing more to do.
    Finished,
}

/// The state of storing a chosen cover for a series.
pub struct CoverUpload {
    pub stage: UploadStage,
    /// The chosen file, once read and accepted.
    pub file: Option<CoverFile>,
    /// Its bytes, until they are handed out to be written.
    pub bytes: Vec<u8>,
    /// The bytes that were read.
    pub read: Ghost<Seq<u8>>,
    /// The series' cover before this one.
    pub previous: Option<CoverAsset>,
    /// The asset that is now the series' cover.
    pub stored: Option<CoverAsset>,
    /// This upload moved the content file into place.
    pub created: bool,
}

/// What came of the last action.
#[derive(Debug, Clone)]
pub enum UploadEvent {
    /// The size of the chosen file.
    Measured(u64),
    /// The bytes of the chosen file.
    Read(Vec<u8>),
    /// The series' current cover.
    CurrentCover(Option<CoverAsset>),
    /// Whether the content file is already stored.
    TargetExists(bool),
    Done,
    /// Renaming the temporary file failed, with this description.
    MoveFailed(String),
    /// The asset that is now the series' cover.
    Saved(CoverAsset),
    /// Whether the previous asset's record was deleted, nothing referring to it.
    Released(bool),
    Failed(AppError),
}

/// What the runner of an upload is asked to do next. Paths are relative to the
/// application data directory.
#[derive(Debug)]
pub enum UploadAction {
    MeasureSource,
    ReadSource,
    LoadCurrentCover,
    ProbeTarget(String),
    /// Write these bytes to a temporary file beside the content file at this path.
    WriteTemporary(String, Vec<u8>),
    /// Rename the temporary file to the content file at this path.
    MoveIntoPlace(String),
    /// Remove the temporary file, then report the error.
    DiscardTemporary(AppError),
    /// Record this file as an asset (or reuse the asset with its digest) and make it
    /// the series' cover.
    SaveAsset(CoverFile),
    /// Remove the content file this upload stored at this path, then report the error.
    DiscardCreatedFile(String, AppError),
    /// Delete the record of the asset with this id if nothing refers to it.
    ReleaseAsset(String),
    /// Remove the file at this path; a failure is ignored.
    RemoveFile(String),
    Fail(AppError),
    Succeed(CoverAsset),
}

/// `file` is what `plan_cover_file` makes of `bytes`: an accepted image, named by the
/// SHA-256 of exactly these bytes.
pub open spec fn file_of_bytes(file: CoverFile, bytes: Seq<u8>) -> bool {
    &&& bytes.len() <= MAX_COVER_BYTES
    &&& Some(file.mime_type) == detected_image(bytes)
    &&& file.sha256@ == lower_hex(sha256_digest(bytes))
    &&& file.relative_path@ == cover_relative_path(sha256_digest(bytes), file.mime_type)
    &&& file.byte_size == bytes.len()
}

/// Two descriptions of the same cover file.
pub open spec fn same_file(a: CoverFile, b: CoverFile) -> bool {
    &&& a.mime_type == b.mime_type
    &&& a.sha256@ == b.sha256@
    &&& a.relative_path@ == b.relative_path@
    &&& a.byte_size == b.byte_size
}

/// The previous cover that may now be unreferenced (see `superseded_cover`).
pub open spec fn superseded(previous: Option<CoverAsset>, current: CoverAsset) -> Option<
    CoverAsset,
> {
    match previous {
        Some(a) => if a.id@ != current.id@ {
            Some(a)
        } else {
            None
        },
        None => None,
    }
}

pub open spec fn is_cover_error(e: AppError) -> bool {
    e.code@ == "cover_operation_failed"@ && e.message@ == "Unable to store the selected cover image."@
}

pub open spec fn is_too_large(e: AppError) -> bool {
    e.code@ == "cover_too_large"@ && e.message@ == "The cover image is too large."@
}

pub open spec fn is_unsupported_image(e: AppError) -> bool {
    e.code@ == "invalid_cover_image"@ && e.message@
        == "The selected file is not a supported image."@
}

/// The action reports the general cover error.
pub open spec fn fails_as_cover_error(a: UploadAction) -> bool {
    a matches UploadAction::Fail(e) && is_cover_error(e)
}

/// A relative path that may name a file inside the covers directory: not empty, not
/// from the root, without a `..` segment (see `managed_cover_path`).
pub open spec fn managed_path_possible(path: Seq<char>) -> bool {
    !(path.len() == 0 || starts_at_root(path) || has_parent_segment(path))
}

/// What an upload keeps between its steps.
pub open spec fn upload_wf(u: CoverUpload) -> bool {
    &&& (u.stage is LoadingCurrent || u.stage is Probing || u.stage is Writing
        || u.stage is Moving || u.stage is Saving) ==> (u.file matches Some(f) && file_of_bytes(
        f,
        u.read@,
    ))
    &&& (u.stage is LoadingCurrent || u.stage is Probing) ==> u.bytes@ == u.read@
    &&& u.created ==> u.stage is Saving
    &&& (u.stage is Releasing || u.stage is Removing) ==> (u.stored is Some && u.previous is Some)
}

/// A new upload, which starts by reading the size of the chosen file: nothing read,
/// no file accepted, no cover known or stored yet.
pub fn start_cover_upload() -> (r: (CoverUpload, UploadAction))
    ensures
        r.0.stage is Measuring,
        !r.0.created,
        r.0.file is None,
        r.0.bytes@ == Seq::<u8>::empty(),
        r.0.read@ == Seq::<u8>::empty(),
        r.0.previous is None,
        r.0.stored is None,
        upload_wf(r.0),
        r.1 is MeasureSource,
{
    (
        CoverUpload {
            stage: UploadStage::Measuring,
            file: None,
            bytes: Vec::new(),
            read: Ghost(Seq::empty()),
            previous: None,
            stored: None,
            created: false,
        },
        UploadAction::MeasureSource,
    )
}

fn copy_file(file: &CoverFile) -> (r: CoverFile)
    ensures
        same_file(r, *file),
{
    CoverFile {
        mime_type: file.mime_type,
        sha256: file.sha256.clone(),
        relative_path: file.relative_path.clone(),
        byte_size: file.byte_size,
    }
}

fn finish(u: CoverUpload, action: UploadAction) -> (r: (CoverUpload, UploadAction))
    ensures
        r.0.stage is Finished,
        !r.0.created,
        r.0.stored == u.stored,
        r.1 == action,
        upload_wf(r.0),
{
    (CoverUpload { stage: UploadStage::Finished, created: false, ..u }, action)
}

} // verus!

verus! {

/// Decides the next step of storing a cover from the outcome of the last one.
///
/// A file over `MAX_COVER_BYTES`, or of no supported image format, is refused before
/// anything is written. An accepted file is stored under the path named by the
/// SHA-256 of the very bytes read (written to a temporary file, then renamed), unless
/// that file is already stored; then it is recorded and set as the series' cover. If
/// that fails, the content file is removed only when this upload put it in place. The
/// previous cover, when it is another asset, is released, and its file removed only
/// when nothing refers to it any more and it lies inside the covers directory:
/// always for a path `covers/<name>`, never for an empty path, a path from the root
/// or one with a `..` segment, and for a path that every platform reads alike,
/// exactly when it splits into `covers` and one file name.
pub fn advance_cover_upload(u: CoverUpload, event: UploadEvent) -> (r: (CoverUpload, UploadAction))
    requires
        upload_wf(u),
    ensures
        upload_wf(r.0),
        r.0.created == (u.stage is Moving && event is Done),
        r.1 is WriteTemporary || r.1 is MoveIntoPlace || r.1 is SaveAsset ==> (r.0.file matches Some(
            f,
        ) && file_of_bytes(f, r.0.read@)),
        r.1 is DiscardCreatedFile ==> u.created,
        r.1 is RemoveFile ==> u.stage is Releasing && event == UploadEvent::Released(true),
        u.stage is Measuring ==> match event {
            UploadEvent::Measured(n) => if n <= MAX_COVER_BYTES {
                r.0.stage is Reading && r.1 is ReadSource
            } else {
                r.0.stage is Finished && (r.1 matches UploadAction::Fail(e) && is_too_large(e))
            },
            _ => r.0.stage is Finished && fails_as_cover_error(r.1),
        },
        u.stage is Reading ==> match event {
            UploadEvent::Read(bytes) => if bytes@.len() > MAX_COVER_BYTES {
                r.0.stage is Finished && (r.1 matches UploadAction::Fail(e) && is_too_large(e))
            } else if detected_image(bytes@) is None {
                r.0.stage is Finished && (r.1 matches UploadAction::Fail(e) && is_unsupported_image(
                    e,
                ))
            } else {
                &&& r.0.stage is LoadingCurrent
                &&& r.1 is LoadCurrentCover
                &&& r.0.read@ == bytes@
            },
            _ => r.0.stage is Finished && fails_as_cover_error(r.1),
        },
        u.stage is LoadingCurrent ==> match event {
            UploadEvent::CurrentCover(current) => {
                &&& r.0.stage is Probing
                &&& r.0.previous == current
                &&& (r.1 matches UploadAction::ProbeTarget(path) && path@
                    == u.file->0.relative_path@)
            },
            UploadEvent::Failed(e) => r.0.stage is Finished && r.1 == UploadAction::Fail(e),
            _ => r.0.stage is Finished && fails_as_cover_error(r.1),
        },
        u.stage is Probing ==> match event {
            UploadEvent::TargetExists(true) => r.0.stage is Saving && (r.1 matches UploadAction::SaveAsset(
                f,
            ) && same_file(f, u.file->0)),
            UploadEvent::TargetExists(false) => {
                &&& r.0.stage is Writing
                &&& (r.1 matches UploadAction::WriteTemporary(path, bytes) && path@
                    == u.file->0.relative_path@ && bytes@ == u.read@)
            },
            _ => r.0.stage is Finished && fails_as_cover_error(r.1),
        },
        u.stage is Writing ==> if event is Done {
            r.0.stage is Moving && (r.1 matches UploadAction::MoveIntoPlace(path) && path@
                == u.file->0.relative_path@)
        } else {
            r.0.stage is Finished && fails_as_cover_error(r.1)
        },
        u.stage is Moving ==> match event {
            UploadEvent::Done => r.0.stage is Saving && (r.1 matches UploadAction::SaveAsset(f)
                && same_file(f, u.file->0)),
            UploadEvent::MoveFailed(reason) => r.0.stage is Finished && (
            r.1 matches UploadAction::DiscardTemporary(e) && e.code@ == "cover_copy_failed"@
                && e.message@ == reason@),
            _ => r.0.stage is Finished && (r.1 matches UploadAction::DiscardTemporary(e)
                && is_cover_error(e)),
        },
        u.stage is Saving ==> match event {
            UploadEvent::Saved(asset) => match superseded(u.previous, asset) {
                Some(old) => {
                    &&& r.0.stage is Releasing
                    &&& r.0.stored == Some(asset)
                    &&& r.0.previous == Some(old)
                    &&& (r.1 matches UploadAction::ReleaseAsset(id) && id@ == old.id@)
                },
                None => r.0.stage is Finished && r.1 == UploadAction::Succeed(asset),
            },
            UploadEvent::Failed(e) => r.0.stage is Finished && if u.created {
                (r.1 matches UploadAction::DiscardCreatedFile(path, e2) && path@
                    == u.file->0.relative_path@ && e2 == e)
            } else {
                r.1 == UploadAction::Fail(e)
            },
            _ => r.0.stage is Finished && if u.created {
                (r.1 matches UploadAction::DiscardCreatedFile(path, e) && path@
                    == u.file->0.relative_path@ && is_cover_error(e))
            } else {
                fails_as_cover_error(r.1)
            },
        },
        u.stage is Releasing ==> match event {
            UploadEvent::Released(true) => {
                &&& {
                    ||| (r.0.stage is Removing && r.0.stored == u.stored && (
                    r.1 matches UploadAction::RemoveFile(path) && path@
                        == u.previous->0.relative_path@))
                    ||| (r.0.stage is Finished && r.1 == UploadAction::Succeed(u.stored->0))
                }
                &&& is_plain_cover_path(u.previous->0.relative_path@) ==> r.0.stage is Removing
                &&& is_portable_path(u.previous->0.relative_path@) ==> (r.0.stage is Removing
                    <==> is_managed_parts(portable_parts(u.previous->0.relative_path@)))
                &&& !managed_path_possible(u.previous->0.relative_path@) ==> (r.0.stage is Finished
                    && r.1 == UploadAction::Succeed(u.stored->0))
            },
            UploadEvent::Released(false) => r.0.stage is Finished && r.1 == UploadAction::Succeed(
                u.stored->0,
            ),
            UploadEvent::Failed(e) => r.0.stage is Finished && r.1 == UploadAction::Fail(e),
            _ => r.0.stage is Finished && fails_as_cover_error(r.1),
        },
        u.stage is Removing ==> r.0.stage is Finished && r.1 == UploadAction::Succeed(u.stored->0),
        u.stage is Finished ==> r.0.stage is Finished && fails_as_cover_error(r.1),
{
    match u.stage {
        UploadStage::Measuring => match event {
            UploadEvent::Measured(n) => match check_cover_size(n) {
                Ok(()) => (
                    CoverUpload { stage: UploadStage::Reading, created: false, ..u },
                    UploadAction::ReadSource,
                ),
                Err(e) => finish(u, UploadAction::Fail(e)),
            },
            _ => finish(u, UploadAction::Fail(cover_error())),
        },
        UploadStage::Reading => match event {
            UploadEvent::Read(bytes) => match plan_cover_file(bytes.as_slice()) {
                Ok(file) => (
                    CoverUpload {
                        stage: UploadStage::LoadingCurrent,
                        file: Some(file),
                        read: Ghost(bytes@),
                        bytes,
                        created: false,
                        ..u
                    },
                    UploadAction::LoadCurrentCover,
                ),
                Err(e) => finish(u, UploadAction::Fail(e)),
            },
            _ => finish(u, UploadAction::Fail(cover_error())),
        },
        UploadStage::LoadingCurrent => match event {
            UploadEvent::CurrentCover(current) => {
                let path = match &u.file {
                    Some(f) => f.relative_path.clone(),
                    None => String::new(),
                };
                (
                    CoverUpload { stage: UploadStage::Probing, previous: current, created: false, ..u },
                    UploadAction::ProbeTarget(path),
                )
            },
            UploadEvent::Failed(e) => finish(u, UploadAction::Fail(e)),
            _ => finish(u, UploadAction::Fail(cover_error())),
        },
        UploadStage::Probing => match event {
            UploadEvent::TargetExists(exists) => {
                let CoverUpload { stage, file, bytes, read, previous, stored, created } = u;
                match file {
                    Some(f) => {
                        if exists {
                            let copy = copy_file(&f);
                            (
                                CoverUpload {
                                    stage: UploadStage::Saving,
                                    file: Some(f),
                                    bytes: Vec::new(),
                                    read,
                                    previous,
                                    stored,
                                    created: false,
                                },
                                UploadAction::SaveAsset(copy),
                            )
                        } else {
                            let path = f.relative_path.clone();
                            (
                                CoverUpload {
                                    stage: UploadStage::Writing,
                                    file: Some(f),
                                    bytes: Vec::new(),
                                    read,
                                    previous,
                                    stored,
                                    created: false,
                                },
                                UploadAction::WriteTemporary(path, bytes),
                            )
                        }
                    },
                    None => (
                        CoverUpload {
                            stage: UploadStage::Finished,
                            file: None,
                            bytes,
                            read,
                            previous,
                            stored,
                            created: false,
                        },
                        UploadAction::Fail(cover_error()),
                    ),
                }
            },
            _ => finish(u, UploadAction::Fail(cover_error())),
        },
        UploadStage::Writing => match event {
            UploadEvent::Done => {
                let path = match &u.file {
                    Some(f) => f.relative_path.clone(),
                    None => String::new(),
                };
                (
                    CoverUpload { stage: UploadStage::Moving, created: false, ..u },
                    UploadAction::MoveIntoPlace(path),
                )
            },
            _ => finish(u, UploadAction::Fail(cover_error())),
        },
        UploadStage::Moving => match event {
            UploadEvent::Done => {
                let copy = match &u.file {
                    Some(f) => copy_file(f),
                    None => CoverFile {
                        mime_type: crate::models::CoverMimeType::Png,
                        sha256: String::new(),
                        relative_path: String::new(),
                        byte_size: 0,
                    },
                };
                (
                    CoverUpload { stage: UploadStage::Saving, created: true, ..u },
                    UploadAction::SaveAsset(copy),
                )
            },
            UploadEvent::MoveFailed(reason) => finish(
                u,
                UploadAction::DiscardTemporary(AppError::new("cover_copy_failed", reason.as_str())),
            ),
            _ => finish(u, UploadAction::DiscardTemporary(cover_error())),
        },
        UploadStage::Saving => {
            let error = match event {
                UploadEvent::Saved(asset) => {
                    let CoverUpload { stage, file, bytes, read, previous, stored, created } = u;
                    return match superseded_cover(previous, &asset) {
                        Some(old) => {
                            let id = old.id.clone();
                            (
                                CoverUpload {
                                    stage: UploadStage::Releasing,
                                    file,
                                    bytes,
                                    read,
                                    previous: Some(old),
                                    stored: Some(asset),
                                    created: false,
                                },
                                UploadAction::ReleaseAsset(id),
                            )
                        },
                        None => (
                            CoverUpload {
                                stage: UploadStage::Finished,
                                file,
                                bytes,
                                read,
                                previous: None,
                                stored,
                                created: false,
                            },
                            UploadAction::Succeed(asset),
                        ),
                    };
                },
                UploadEvent::Failed(e) => e,
                _ => cover_error(),
            };
            if u.created {
                let path = match &u.file {
                    Some(f) => f.relative_path.clone(),
                    None => String::new(),
                };
                finish(u, UploadAction::DiscardCreatedFile(path, error))
            } else {
                finish(u, UploadAction::Fail(error))
            }
        },
        UploadStage::Releasing => {
            let CoverUpload { stage, file, bytes, read, previous, stored, created } = u;
            let done = CoverUpload {
                stage: UploadStage::Finished,
                file,
                bytes,
                read,
                previous: None,
                stored: None,
                created: false,
            };
            match (event, previous, stored) {
                (UploadEvent::Released(true), Some(old), Some(asset)) => {
                    match managed_cover_path(old.relative_path.as_str()) {
                        Some(path) => (
                            CoverUpload {
                                stage: UploadStage::Removing,
                                previous: Some(old),
                                stored: Some(asset),
                                ..done
                            },
                            UploadAction::RemoveFile(path),
                        ),
                        None => (done, UploadAction::Succeed(asset)),
                    }
                },
                (UploadEvent::Released(false), _, Some(asset)) => (done, UploadAction::Succeed(asset)),
                (UploadEvent::Failed(e), _, _) => (done, UploadAction::Fail(e)),
                _ => (done, UploadAction::Fail(cover_error())),
            }
        },
        UploadStage::Removing => {
            let CoverUpload { stage, file, bytes, read, previous, stored, created } = u;
            let done = CoverUpload {
                stage: UploadStage::Finished,
                file,
                bytes,
                read,
                previous: None,
                stored: None,
                created: false,
            };
            match stored {
                Some(asset) => (done, UploadAction::Succeed(asset)),
                None => (done, UploadAction::Fail(cover_error())),
            }
        },
        UploadStage::Finished => finish(u, UploadAction::Fail(cover_error())),
    }
}

} // verus!
