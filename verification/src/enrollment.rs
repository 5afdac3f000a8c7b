//! Enrolling faces for a user and removing them again.
use crate::codec::{creation_stamp, fresh_identifier};
use crate::errors::{AppError, AppResult};
use crate::extractor::{
    ensure_valid_faces, payload_fault, payload_fault_text, FaceEmbeddingRecord, FaceMeasure,
};
use crate::scalar::Scalar;
use crate::secret_service::{EmbeddingKey, EmbeddingKeyStatus};
use crate::store::{EnrolledEmbedding, FaceStore, StoreDirResolver};
use crate::text::{
    char_is_ascii_alphanumeric, chars_of, decimal, decimal_digits, is_ascii_alphanumeric,
    join_path, joined_path, str_eq,
};
use vstd::prelude::*;
use vstd::string::StringExecFns;

verus! {

/// A character a user name may hold: an ASCII letter or digit, `-` or `_`.
pub open spec fn is_user_name_char(c: char) -> bool {
    is_ascii_alphanumeric(c) || c == '-' || c == '_'
}

/// A user name that is accepted: not empty, and made of the characters a
/// user name may hold.
pub open spec fn valid_user_name(user: Seq<char>) -> bool {
    user.len() > 0 && forall|i: int| 0 <= i < user.len() ==> is_user_name_char(#[trigger] user[i])
}

/// The complaint about a user name that is not accepted.
pub open spec fn user_name_complaint(user: Seq<char>) -> Seq<char> {
    if user.len() == 0 {
        "user name cannot be empty"@
    } else {
        "use ASCII letters, numbers, '-' or '_' only"@
    }
}

/// Accepts a user name made of ASCII letters, digits, `-` and `_`, and
/// rejects every other, the empty one included. The name becomes a file
/// name, so this is also what keeps a store inside its directory.
pub fn validate_user_name(user: &str) -> (checked: Result<(), AppError>)
    ensures
        valid_user_name(user@) ==> checked is Ok,
        !valid_user_name(user@) ==> (checked matches Err(
            AppError::InvalidUser { user: named, message },
        ) && named@ == user@ && message@ == user_name_complaint(user@)),
{
    let chars = chars_of(user);
    if chars.len() == 0 {
        return Err(
            AppError::InvalidUser {
                user: user.to_owned(),
                message: "user name cannot be empty".to_owned(),
            },
        );
    }
    let mut i: usize = 0;
    while i < chars.len()
        invariant
            i <= chars.len(),
            chars@ == user@,
            forall|j: int| 0 <= j < i ==> is_user_name_char(#[trigger] user@[j]),
        decreases chars.len() - i,
    {
        let c = chars[i];
        if !(char_is_ascii_alphanumeric(c) || c == '-' || c == '_') {
            assert(!is_user_name_char(user@[i as int]));
            return Err(
                AppError::InvalidUser {
                    user: user.to_owned(),
                    message: "use ASCII letters, numbers, '-' or '_' only".to_owned(),
                },
            );
        }
        i += 1;
    }
    Ok(())
}

/// A name that holds a path separator, a dot or whitespace anywhere is not
/// accepted.
pub proof fn lemma_separator_is_rejected(user: Seq<char>, at: int)
    requires
        0 <= at < user.len(),
        user[at] == '/' || user[at] == '.' || user[at] == '\\' || user[at] == ' ' || user[at]
            == '\0',
    ensures
        !valid_user_name(user),
{
    assert(!is_user_name_char(user[at]));
}

/// The store of an accepted user lies directly in the store directory: its
/// path is the directory, one separator unless the directory brings its own,
/// and a file name without a separator in it.
pub proof fn lemma_store_stays_in_directory(dir: Seq<char>, user: Seq<char>)
    requires
        valid_user_name(user),
    ensures
        joined_path(dir, user + ".json"@) == if dir.len() == 0 || dir.last() == '/' {
            dir + (user + ".json"@)
        } else {
            dir + "/"@ + (user + ".json"@)
        },
        forall|i: int| 0 <= i < user.len() ==> #[trigger] user[i] != '/',
{
    assert(is_user_name_char(user[0]));
    assert((user + ".json"@)[0] == user[0]);
    assert forall|i: int| 0 <= i < user.len() implies #[trigger] user[i] != '/' by {
        assert(is_user_name_char(user[i]));
    }
}

/// What one enrollment is run with.
#[derive(Debug, Clone, PartialEq, Eq)]
pub struct FaceEnrollmentConfig {
    pub user: String,
    /// The file the faces to enroll were read from.
    pub embedding: String,
    pub store_dir: Option<String>,
}

/// What one removal is run with.
#[derive(Debug, Clone, PartialEq, Eq)]
pub struct FaceRemovalConfig {
    pub user: String,
    pub embedding_ids: Vec<String>,
    pub remove_all: bool,
    pub store_dir: Option<String>,
}

/// What is reported of an enrolled face.
#[derive(Debug, Clone, PartialEq, Eq)]
pub struct EnrollmentRecord {
    pub id: String,
    pub embedding_len: usize,
    pub source: String,
    pub created_at: String,
}

/// One enrollment, with what was logged on the way.
#[derive(Debug, Clone, PartialEq, Eq)]
pub struct FaceEnrollmentOutcome {
    pub user: String,
    pub store_path: String,
    pub added: Vec<EnrollmentRecord>,
    pub logs: Vec<String>,
}

/// One removal, with what was logged on the way.
#[derive(Debug, Clone, PartialEq, Eq)]
pub struct FaceRemovalOutcome {
    pub user: String,
    pub store_path: String,
    pub removed_ids: Vec<String>,
    pub remaining: usize,
    pub cleared: bool,
    pub logs: Vec<String>,
}

/// Something that keeps the keys of the stores.
pub trait KeyProvider {
    fn fetch(&self, user: &str) -> AppResult<EmbeddingKeyStatus>;

    fn store(&self, user: &str, key: &[u8]) -> AppResult<()>;

    fn generate(&self) -> EmbeddingKey;
}

/// One face of a payload, with the magnitude of its vector.
#[derive(Debug, Clone, PartialEq, Eq)]
pub struct MeasuredFace {
    pub record: FaceEmbeddingRecord,
    pub magnitude: Scalar,
}

/// What validation reads of the faces of a payload.
pub open spec fn measures_of(faces: Seq<MeasuredFace>) -> Seq<FaceMeasure> {
    Seq::new(
        faces.len(),
        |i: int|
            FaceMeasure {
                embedding_len: faces[i].record.embedding.len(),
                magnitude: faces[i].magnitude,
            },
    )
}

fn measure(faces: &Vec<MeasuredFace>) -> (measures: Vec<FaceMeasure>)
    ensures
        measures@ == measures_of(faces@),
{
    let mut measures: Vec<FaceMeasure> = Vec::new();
    let mut i: usize = 0;
    while i < faces.len()
        invariant
            i <= faces.len(),
            measures@ == measures_of(faces@).take(i as int),
        decreases faces.len() - i,
    {
        measures.push(
            FaceMeasure {
                embedding_len: faces[i].record.embedding.len(),
                magnitude: faces[i].magnitude,
            },
        );
        assert(measures_of(faces@).take(i + 1) == measures_of(faces@).take(i as int).push(
            measures_of(faces@)[i as int],
        ));
        i += 1;
    }
    assert(measures_of(faces@).take(faces@.len() as int) == measures_of(faces@));
    measures
}

/// Whether `mapped` is `err` as an enrollment reports it for the payload at
/// `path`: what is wrong with the payload's file or its JSON counts as a
/// failed validation of the payload; every other error stays as it is.
pub open spec fn is_validation_report(mapped: AppError, path: Seq<char>, err: AppError) -> bool {
    match err {
        AppError::InvalidFeatureFile { path: _, message } =>
            mapped matches AppError::EmbeddingValidation { path: at, message: m } && at@ == path
                && m == message,
        AppError::Serialization(source) => mapped matches AppError::EmbeddingValidation {
            path: at,
            message: m,
        } && at@ == path && m == source,
        other => mapped == other,
    }
}

/// Reports an error of the payload at `path` as an enrollment does.
pub fn map_to_embedding_validation(path: &str, err: AppError) -> (mapped: AppError)
    ensures
        is_validation_report(mapped, path@, err),
{
    match err {
        AppError::InvalidFeatureFile { path: _, message } => AppError::EmbeddingValidation {
            path: path.to_owned(),
            message,
        },
        AppError::Serialization(source) => AppError::EmbeddingValidation {
            path: path.to_owned(),
            message: source,
        },
        other => other,
    }
}

/// The message for faces whose vectors have another length than those
/// already in the store.
pub open spec fn store_length_mismatch(stored: usize, offered: usize) -> Seq<char> {
    "embedding length mismatch with existing store (expected "@ + decimal_digits(stored as nat)
        + ", found "@ + decimal_digits(offered as nat) + ")"@
}

/// Checks that faces with vectors of `offered` values may join the records
/// already in the store at `path`: the first stored vector sets the length.
pub fn ensure_fits_store(existing: &Vec<EnrolledEmbedding>, offered: usize, path: &str) -> (
checked: Result<(), AppError>)
    ensures
        existing@.len() == 0 || existing@[0].embedding@.len() == offered ==> checked is Ok,
        existing@.len() > 0 && existing@[0].embedding@.len() != offered ==> (checked matches Err(
            AppError::EmbeddingValidation { path: at, message },
        ) && at@ == path@ && message@ == store_length_mismatch(
            existing@[0].embedding@.len() as usize,
            offered,
        )),
{
    if existing.len() > 0 {
        let stored = existing[0].embedding.len();
        if stored != offered {
            let mut m = "embedding length mismatch with existing store (expected ".to_owned();
            let s = decimal(stored as u64);
            m.append(s.as_str());
            m.append(", found ");
            let o = decimal(offered as u64);
            m.append(o.as_str());
            m.append(")");
            return Err(AppError::EmbeddingValidation { path: path.to_owned(), message: m });
        }
    }
    Ok(())
}

/// Whether `record` is the face `face` enrolled from `source` under `id` at
/// `created_at`.
pub open spec fn is_enrolled_from(
    record: EnrolledEmbedding,
    face: FaceEmbeddingRecord,
    source: Seq<char>,
    id: Seq<char>,
    created_at: Seq<char>,
) -> bool {
    &&& record.id@ == id
    &&& record.embedding@ == face.embedding@
    &&& record.bounding_box == face.bounding_box
    &&& record.source@ == source
    &&& record.created_at@ == created_at
}

/// Whether `report` reports the enrollment of `record`.
pub open spec fn reports_enrollment(report: EnrollmentRecord, record: EnrolledEmbedding) -> bool {
    &&& report.id@ == record.id@
    &&& report.embedding_len == record.embedding@.len()
    &&& report.source@ == record.source@
    &&& report.created_at@ == record.created_at@
}

fn copy_vector(v: &Vec<Scalar>) -> (copy: Vec<Scalar>)
    ensures
        copy@ == v@,
{
    let mut copy: Vec<Scalar> = Vec::new();
    let mut i: usize = 0;
    while i < v.len()
        invariant
            i <= v.len(),
            copy@ == v@.take(i as int),
        decreases v.len() - i,
    {
        copy.push(v[i]);
        assert(v@.take(i + 1) == v@.take(i as int).push(v@[i as int]));
        i += 1;
    }
    assert(v@.take(v@.len() as int) == v@);
    copy
}

/// Adds one face to the records of a store, under an identifier and a time
/// of creation given by the caller, and returns what is reported of it.
pub fn enroll_face(
    existing: &mut Vec<EnrolledEmbedding>,
    face: &FaceEmbeddingRecord,
    source: &str,
    id: String,
    created_at: String,
) -> (report: EnrollmentRecord)
    ensures
        final(existing)@.len() == old(existing)@.len() + 1,
        final(existing)@.take(old(existing)@.len() as int) == old(existing)@,
        is_enrolled_from(final(existing)@.last(), *face, source@, id@, created_at@),
        reports_enrollment(report, final(existing)@.last()),
{
    let report = EnrollmentRecord {
        id: id.clone(),
        embedding_len: face.embedding.len(),
        source: source.to_owned(),
        created_at: created_at.clone(),
    };
    let record = EnrolledEmbedding {
        id,
        embedding: copy_vector(&face.embedding),
        bounding_box: crate::extractor::BoundingBox {
            left: face.bounding_box.left,
            top: face.bounding_box.top,
            right: face.bounding_box.right,
            bottom: face.bounding_box.bottom,
        },
        source: source.to_owned(),
        created_at,
    };
    existing.push(record);
    assert(final(existing)@.take(old(existing)@.len() as int) == old(existing)@);
    report
}

/// An identifier and a time of creation for one record.
#[derive(Debug, Clone, PartialEq, Eq)]
pub struct RecordStamp {
    pub id: String,
    pub created_at: String,
}

/// A face to enroll and the stamp it is enrolled under.
#[derive(Debug, Clone, PartialEq, Eq)]
pub struct StampedFace {
    pub face: FaceEmbeddingRecord,
    pub stamp: RecordStamp,
}

/// Whether `records` are `existing` followed by the first `count` faces,
/// each enrolled from `source` under its stamp.
pub open spec fn extends_store(
    records: Seq<EnrolledEmbedding>,
    existing: Seq<EnrolledEmbedding>,
    faces: Seq<StampedFace>,
    source: Seq<char>,
    count: int,
) -> bool {
    &&& records.len() == existing.len() + count
    &&& records.take(existing.len() as int) == existing
    &&& forall|i: int|
        0 <= i < count ==> is_enrolled_from(
            #[trigger] records[existing.len() + i],
            faces[i].face,
            source,
            faces[i].stamp.id@,
            faces[i].stamp.created_at@,
        )
}

/// Whether `reports` report the enrollment of the `count` records that
/// follow the first `kept`.
pub open spec fn reports_added(
    reports: Seq<EnrollmentRecord>,
    records: Seq<EnrolledEmbedding>,
    kept: int,
    count: int,
) -> bool {
    &&& reports.len() == count
    &&& forall|i: int|
        0 <= i < count ==> reports_enrollment(#[trigger] reports[i], records[kept + i])
}

/// Adds faces to the records of a store, one record per face and in the
/// order of the faces, each under the stamp that goes with it, and returns
/// what is reported of them. Nothing that was in the store is changed or
/// dropped.
pub fn enroll_faces(
    existing: &mut Vec<EnrolledEmbedding>,
    faces: &Vec<StampedFace>,
    source: &str,
) -> (added: Vec<EnrollmentRecord>)
    ensures
        extends_store(final(existing)@, old(existing)@, faces@, source@, faces@.len() as int),
        reports_added(
            added@,
            final(existing)@,
            old(existing)@.len() as int,
            faces@.len() as int,
        ),
{
    let ghost kept = existing@;
    let mut added: Vec<EnrollmentRecord> = Vec::new();
    let mut i: usize = 0;
    assert(existing@.take(kept.len() as int) == kept);
    while i < faces.len()
        invariant
            i <= faces.len(),
            kept == old(existing)@,
            extends_store(existing@, kept, faces@, source@, i as int),
            reports_added(added@, existing@, kept.len() as int, i as int),
        decreases faces.len() - i,
    {
        let ghost before = existing@;
        let ghost reported = added@;
        let report = enroll_face(
            existing,
            &faces[i].face,
            source,
            faces[i].stamp.id.clone(),
            faces[i].stamp.created_at.clone(),
        );
        added.push(report);
        assert(existing@.take(before.len() as int) == before);
        assert(existing@.take(kept.len() as int) == kept) by {
            assert(before.take(kept.len() as int) == kept);
            assert(existing@.take(kept.len() as int) =~= before.take(kept.len() as int));
        }
        assert forall|k: int| 0 <= k < i + 1 implies is_enrolled_from(
            #[trigger] existing@[kept.len() + k],
            faces@[k].face,
            source@,
            faces@[k].stamp.id@,
            faces@[k].stamp.created_at@,
        ) by {
            if k < i {
                assert(existing@[kept.len() + k] == before[kept.len() + k]);
            } else {
                assert(existing@[kept.len() + k] == existing@.last());
            }
        }
        assert forall|k: int| 0 <= k < i + 1 implies reports_enrollment(
            #[trigger] added@[k],
            existing@[kept.len() + k],
        ) by {
            if k < i {
                assert(added@[k] == reported[k]);
                assert(existing@[kept.len() + k] == before[kept.len() + k]);
            } else {
                assert(existing@[kept.len() + k] == existing@.last());
            }
        }
        i += 1;
    }
    added
}

/// Stamps each face with an identifier made for it and the present moment.
fn stamp_faces(faces: Vec<MeasuredFace>) -> (stamped: Vec<StampedFace>)
    ensures
        stamped@.len() == faces@.len(),
        forall|i: int|
            0 <= i < faces@.len() ==> (#[trigger] stamped@[i]).face == faces@[i].record,
{
    let ghost all = faces@;
    let mut faces = faces;
    let total = faces.len();
    let mut stamped: Vec<StampedFace> = Vec::new();
    while faces.len() > 0
        invariant
            total == all.len(),
            stamped@.len() + faces@.len() == all.len(),
            faces@ == all.subrange(stamped@.len() as int, all.len() as int),
            forall|i: int| 0 <= i < stamped@.len() ==> (#[trigger] stamped@[i]).face == all[i].record,
        decreases faces@.len(),
    {
        let ghost done = stamped@;
        let face = faces.remove(0);
        assert(face == all[done.len() as int]);
        stamped.push(
            StampedFace {
                face: face.record,
                stamp: RecordStamp { id: fresh_identifier(), created_at: creation_stamp() },
            },
        );
        assert(faces@ == all.subrange(stamped@.len() as int, all.len() as int));
        assert forall|i: int| 0 <= i < stamped@.len() implies (#[trigger] stamped@[i]).face
            == all[i].record by {
            if i < done.len() {
                assert(stamped@[i] == done[i]);
            }
        }
    }
    stamped
}

/// Enrolls the faces of a payload for a user: validates the user's name and
/// the faces, loads the user's store with the key in force, appends one
/// record per face, and saves the whole store under a key made for the
/// occasion, which then replaces the one in the key provider.
///
/// What store, key provider and resolver do is theirs to decide. Whatever
/// they do: a name or a payload that is not valid is refused before any of
/// them is asked, and an enrollment that succeeds reports one record per
/// face, each with the length the faces share.
pub fn run_face_enrollment_with<S: FaceStore, K: KeyProvider, R: StoreDirResolver>(
    config: &FaceEnrollmentConfig,
    payload: AppResult<Vec<MeasuredFace>>,
    store: &S,
    keys: &K,
    resolver: &R,
) -> (outcome: AppResult<FaceEnrollmentOutcome>)
    ensures
        !valid_user_name(config.user@) ==> (outcome matches Err(
            AppError::InvalidUser { user, message },
        ) && user@ == config.user@ && message@ == user_name_complaint(config.user@)),
        outcome matches Ok(done) ==> is_store_path_of(done.store_path@, config.user@),
        valid_user_name(config.user@) ==> match payload {
            Err(err) => outcome matches Err(mapped) && is_validation_report(
                mapped,
                config.embedding@,
                err,
            ),
            Ok(faces) => match payload_fault(measures_of(faces@)) {
                Some(fault) => outcome matches Err(
                    AppError::EmbeddingValidation { path, message },
                ) && path@ == config.embedding@ && message@ == payload_fault_text(
                    fault,
                    if faces@.len() > 0 {
                        faces@[0].record.embedding@.len()
                    } else {
                        0
                    },
                ),
                None => outcome matches Ok(done) ==> done.user@ == config.user@
                    && done.added@.len() == faces@.len() && forall|i: int|
                    0 <= i < done.added@.len() ==> (#[trigger] done.added@[i]).embedding_len
                        == faces@[0].record.embedding@.len() && done.added@[i].source@
                        == config.embedding@,
            },
        },
{
    validate_user_name(config.user.as_str())?;
    let mut logs: Vec<String> = Vec::new();
    let mut line = "Loading embedding payload from ".to_owned();
    line.append(config.embedding.as_str());
    logs.push(line);

    let faces = match payload {
        Ok(faces) => faces,
        Err(err) => {
            return Err(map_to_embedding_validation(config.embedding.as_str(), err));
        },
    };
    let measures = measure(&faces);
    let embedding_len = match ensure_valid_faces(&measures, config.embedding.as_str()) {
        Ok(length) => length,
        Err(err) => {
            return Err(map_to_embedding_validation(config.embedding.as_str(), err));
        },
    };
    proof {
        crate::extractor::lemma_valid_payload(measures@);
    }
    let mut line = "Validated ".to_owned();
    let n = decimal(faces.len() as u64);
    line.append(n.as_str());
    line.append(" embedding(s) with length ");
    let l = decimal(embedding_len as u64);
    line.append(l.as_str());
    logs.push(line);

    let store_path = store_path_for(resolver, config.store_dir.as_ref(), config.user.as_str());
    let current_key: Option<Vec<u8>> = match keys.fetch(config.user.as_str())? {
        EmbeddingKeyStatus::Present(key) => Some(key.into_bytes()),
        EmbeddingKeyStatus::Missing => None,
    };
    let mut existing = match &current_key {
        Some(key) => store.load(store_path.as_str(), Some(key.as_slice()))?,
        None => store.load(store_path.as_str(), None)?,
    };
    ensure_fits_store(&existing, embedding_len, store_path.as_str())?;

    let ghost offered = faces@;
    let stamped = stamp_faces(faces);
    let ghost loaded = existing@;
    let added = enroll_faces(&mut existing, &stamped, config.embedding.as_str());
    proof {
        assert forall|k: int| 0 <= k < added@.len() implies (#[trigger] added@[k]).embedding_len
            == embedding_len && added@[k].source@ == config.embedding@ by {
            let record = existing@[loaded.len() + k];
            assert(reports_enrollment(added@[k], record));
            assert(is_enrolled_from(
                record,
                stamped@[k].face,
                config.embedding@,
                stamped@[k].stamp.id@,
                stamped@[k].stamp.created_at@,
            ));
            assert(stamped@[k].face == offered[k].record);
            assert(measures@[k].embedding_len == offered[k].record.embedding@.len());
        }
    }

    let new_key = keys.generate();
    store.save(store_path.as_str(), &existing, Some(new_key.as_bytes()))?;
    keys.store(config.user.as_str(), new_key.as_bytes())?;

    let mut line = "Enrolled ".to_owned();
    let n = decimal(added.len() as u64);
    line.append(n.as_str());
    line.append(" embedding(s) for user ");
    line.append(config.user.as_str());
    logs.push(line);
    let mut line = "Feature store: ".to_owned();
    line.append(store_path.as_str());
    logs.push(line);
    let mut line = "Rotated Secret Service embedding key for user ".to_owned();
    line.append(config.user.as_str());
    logs.push(line);

    assert(measures@[0].embedding_len == offered[0].record.embedding@.len());
    Ok(FaceEnrollmentOutcome { user: config.user.clone(), store_path, added, logs })
}

/// Whether `path` is the store of `user` in some directory: the directory,
/// whichever it is, with the file `{user}.json` appended to it.
pub open spec fn is_store_path_of(path: Seq<char>, user: Seq<char>) -> bool {
    exists|dir: Seq<char>| path == #[trigger] joined_path(dir, user + ".json"@)
}

fn store_path_for<R: StoreDirResolver>(resolver: &R, store_dir: Option<&String>, user: &str) -> (path:
    String)
    ensures
        is_store_path_of(path@, user@),
{
    let dir = match store_dir {
        Some(dir) => resolver.resolve(Some(dir.as_str())),
        None => resolver.resolve(None),
    };
    let mut name = user.to_owned();
    name.append(".json");
    let path = join_path(dir.as_str(), name.as_str());
    assert(path@ == joined_path(dir@, user@ + ".json"@));
    path
}

/// The views of a list of texts.
pub open spec fn texts(list: Seq<String>) -> Seq<Seq<char>> {
    Seq::new(list.len(), |i: int| list[i]@)
}

/// Whether `id` is among the identifiers asked for.
pub open spec fn is_requested(id: Seq<char>, requested: Seq<String>) -> bool {
    exists|k: int| 0 <= k < requested.len() && (#[trigger] requested[k])@ == id
}

/// Whether a record with the identifier `id` is in the store.
pub open spec fn is_enrolled(id: Seq<char>, existing: Seq<EnrolledEmbedding>) -> bool {
    exists|k: int| 0 <= k < existing.len() && (#[trigger] existing[k]).id@ == id
}

/// Of the first `upto` records, those that are not asked to go, in order.
pub open spec fn retained_records(
    existing: Seq<EnrolledEmbedding>,
    requested: Seq<String>,
    upto: int,
) -> Seq<EnrolledEmbedding>
    decreases upto,
{
    if upto <= 0 || upto > existing.len() {
        seq![]
    } else if is_requested(existing[upto - 1].id@, requested) {
        retained_records(existing, requested, upto - 1)
    } else {
        retained_records(existing, requested, upto - 1).push(existing[upto - 1])
    }
}

/// Of the first `upto` records, the identifiers of those that are asked to
/// go, in order.
pub open spec fn removed_identifiers(
    existing: Seq<EnrolledEmbedding>,
    requested: Seq<String>,
    upto: int,
) -> Seq<Seq<char>>
    decreases upto,
{
    if upto <= 0 || upto > existing.len() {
        seq![]
    } else if is_requested(existing[upto - 1].id@, requested) {
        removed_identifiers(existing, requested, upto - 1).push(existing[upto - 1].id@)
    } else {
        removed_identifiers(existing, requested, upto - 1)
    }
}

/// The first identifier asked for, from index `from` on, that no record in
/// the store has.
pub open spec fn first_unknown(
    requested: Seq<String>,
    existing: Seq<EnrolledEmbedding>,
    from: int,
) -> Option<Seq<char>>
    decreases requested.len() - from,
{
    if from < 0 || from >= requested.len() {
        None
    } else if !is_enrolled(requested[from]@, existing) {
        Some(requested[from]@)
    } else {
        first_unknown(requested, existing, from + 1)
    }
}

fn has_requested(requested: &Vec<String>, id: &str) -> (found: bool)
    ensures
        found == is_requested(id@, requested@),
{
    let mut k: usize = 0;
    while k < requested.len()
        invariant
            k <= requested.len(),
            forall|j: int| 0 <= j < k ==> (#[trigger] requested@[j])@ != id@,
        decreases requested.len() - k,
    {
        if str_eq(requested[k].as_str(), id) {
            return true;
        }
        k += 1;
    }
    false
}

fn has_enrolled(existing: &Vec<EnrolledEmbedding>, id: &str) -> (found: bool)
    ensures
        found == is_enrolled(id@, existing@),
{
    let mut k: usize = 0;
    while k < existing.len()
        invariant
            k <= existing.len(),
            forall|j: int| 0 <= j < k ==> (#[trigger] existing@[j]).id@ != id@,
        decreases existing.len() - k,
    {
        if str_eq(existing[k].id.as_str(), id) {
            return true;
        }
        k += 1;
    }
    false
}

/// What a removal leaves and what it takes.
#[derive(Debug, Clone, PartialEq, Eq)]
pub struct RemovalPlan {
    pub retained: Vec<EnrolledEmbedding>,
    pub removed_ids: Vec<String>,
}

/// Works out what the removal of the records with the identifiers asked for
/// does to a user's store. Every identifier asked for must be in the store:
/// the first that is not is reported as not found, and nothing is removed.
/// Otherwise the records asked for go, all others stay, and both keep the
/// order of the store.
pub fn plan_removal(user: &str, existing: Vec<EnrolledEmbedding>, requested: &Vec<String>) -> (plan:
    Result<RemovalPlan, AppError>)
    ensures
        match first_unknown(requested@, existing@, 0) {
            Some(id) => plan matches Err(AppError::EmbeddingNotFound { user: named, embedding_id })
                && named@ == user@ && embedding_id@ == id,
            None => plan matches Ok(found) && found.retained@ == retained_records(
                existing@,
                requested@,
                existing@.len() as int,
            ) && texts(found.removed_ids@) == removed_identifiers(
                existing@,
                requested@,
                existing@.len() as int,
            ),
        },
{
    let mut k: usize = 0;
    while k < requested.len()
        invariant
            k <= requested.len(),
            first_unknown(requested@, existing@, 0) == first_unknown(
                requested@,
                existing@,
                k as int,
            ),
        decreases requested.len() - k,
    {
        if !has_enrolled(&existing, requested[k].as_str()) {
            return Err(
                AppError::EmbeddingNotFound {
                    user: user.to_owned(),
                    embedding_id: requested[k].clone(),
                },
            );
        }
        k += 1;
    }
    let ghost all = existing@;
    let mut existing = existing;
    let mut retained: Vec<EnrolledEmbedding> = Vec::new();
    let mut removed_ids: Vec<String> = Vec::new();
    let total = existing.len();
    let mut taken: usize = 0;
    while existing.len() > 0
        invariant
            total == all.len(),
            taken + existing@.len() == all.len(),
            existing@ == all.subrange(taken as int, all.len() as int),
            retained@ == retained_records(all, requested@, taken as int),
            texts(removed_ids@) == removed_identifiers(all, requested@, taken as int),
        decreases existing@.len(),
    {
        let entry = existing.remove(0);
        assert(entry == all[taken as int]);
        assert(existing@ == all.subrange(taken + 1, all.len() as int));
        if has_requested(requested, entry.id.as_str()) {
            let ghost before = texts(removed_ids@);
            removed_ids.push(entry.id);
            assert(texts(removed_ids@) == before.push(all[taken as int].id@));
        } else {
            retained.push(entry);
        }
        taken += 1;
    }
    Ok(RemovalPlan { retained, removed_ids })
}

/// A removal takes exactly the records asked for: a record stays if and
/// only if its identifier was not asked for, and none is made up.
pub proof fn lemma_removal_takes_what_is_asked(
    existing: Seq<EnrolledEmbedding>,
    requested: Seq<String>,
    upto: int,
)
    requires
        0 <= upto <= existing.len(),
    ensures
        retained_records(existing, requested, upto).len() + removed_identifiers(
            existing,
            requested,
            upto,
        ).len() == upto,
        forall|i: int|
            0 <= i < retained_records(existing, requested, upto).len() ==> !is_requested(
                (#[trigger] retained_records(existing, requested, upto)[i]).id@,
                requested,
            ) && existing.take(upto).contains(retained_records(existing, requested, upto)[i]),
        forall|i: int|
            0 <= i < removed_identifiers(existing, requested, upto).len() ==> is_requested(
                #[trigger] removed_identifiers(existing, requested, upto)[i],
                requested,
            ),
        forall|k: int|
            0 <= k < upto && !is_requested((#[trigger] existing[k]).id@, requested)
                ==> retained_records(existing, requested, upto).contains(existing[k]),
    decreases upto,
{
    if upto > 0 {
        lemma_removal_takes_what_is_asked(existing, requested, upto - 1);
        let before = retained_records(existing, requested, upto - 1);
        let after = retained_records(existing, requested, upto);
        let entry = existing[upto - 1];
        assert(existing.take(upto) == existing.take(upto - 1).push(entry));
        assert forall|i: int| 0 <= i < after.len() implies !is_requested(
            (#[trigger] after[i]).id@,
            requested,
        ) && existing.take(upto).contains(after[i]) by {
            if i < before.len() {
                assert(after[i] == before[i]);
                let j = choose|j: int|
                    0 <= j < existing.take(upto - 1).len() && #[trigger] existing.take(upto - 1)[j]
                        == before[i];
                assert(existing.take(upto)[j] == before[i]);
            } else {
                assert(after[i] == entry);
                assert(existing.take(upto)[upto - 1] == entry);
            }
        }
        assert forall|k: int|
            0 <= k < upto && !is_requested((#[trigger] existing[k]).id@, requested) implies after.contains(
            existing[k],
        ) by {
            if k < upto - 1 {
                let j = choose|j: int| 0 <= j < before.len() && #[trigger] before[j] == existing[k];
                assert(after[j] == existing[k]);
            } else {
                assert(after[after.len() - 1] == existing[k]);
            }
        }
    }
}

/// Removes records from a user's store: all of them, or those with the
/// identifiers asked for. The store is loaded with the key in force; what
/// stays is saved under the same key, and a store that is emptied on
/// request is deleted.
///
/// What store, key provider and resolver do is theirs to decide. Whatever
/// they do: a name that is not valid is refused before any of them is
/// asked, a removal of all that succeeds leaves nothing, and a removal by
/// identifier that succeeds has found every identifier it was asked for.
pub fn run_face_removal_with<S: FaceStore, K: KeyProvider, R: StoreDirResolver>(
    config: &FaceRemovalConfig,
    store: &S,
    keys: &K,
    resolver: &R,
) -> (outcome: AppResult<FaceRemovalOutcome>)
    ensures
        !valid_user_name(config.user@) ==> (outcome matches Err(
            AppError::InvalidUser { user, message },
        ) && user@ == config.user@ && message@ == user_name_complaint(config.user@)),
        outcome matches Ok(done) ==> is_store_path_of(done.store_path@, config.user@),
        outcome matches Ok(done) ==> done.user@ == config.user@ && done.cleared
            == config.remove_all && (config.remove_all ==> done.remaining == 0) && (
        !config.remove_all ==> forall|i: int|
            0 <= i < done.removed_ids@.len() ==> is_requested(
                (#[trigger] done.removed_ids@[i])@,
                config.embedding_ids@,
            )),
{
    validate_user_name(config.user.as_str())?;
    let mut logs: Vec<String> = Vec::new();
    let store_path = store_path_for(resolver, config.store_dir.as_ref(), config.user.as_str());
    let key_bytes: Option<Vec<u8>> = match keys.fetch(config.user.as_str())? {
        EmbeddingKeyStatus::Present(key) => Some(key.into_bytes()),
        EmbeddingKeyStatus::Missing => None,
    };
    let existing = match &key_bytes {
        Some(key) => store.load(store_path.as_str(), Some(key.as_slice()))?,
        None => store.load(store_path.as_str(), None)?,
    };
    let mut line = "Loaded ".to_owned();
    let n = decimal(existing.len() as u64);
    line.append(n.as_str());
    line.append(" embedding(s) for user ");
    line.append(config.user.as_str());
    logs.push(line);

    if config.remove_all {
        let mut removed_ids: Vec<String> = Vec::new();
        let mut i: usize = 0;
        while i < existing.len()
            invariant
                i <= existing.len(),
            decreases existing.len() - i,
        {
            removed_ids.push(existing[i].id.clone());
            i += 1;
        }
        store.delete(store_path.as_str())?;
        let mut line = "Removed all embeddings for user ".to_owned();
        line.append(config.user.as_str());
        logs.push(line);
        return Ok(
            FaceRemovalOutcome {
                user: config.user.clone(),
                store_path,
                removed_ids,
                remaining: 0,
                cleared: true,
                logs,
            },
        );
    }
    let ghost loaded = existing@;
    let plan = plan_removal(config.user.as_str(), existing, &config.embedding_ids)?;
    proof {
        lemma_removal_takes_what_is_asked(loaded, config.embedding_ids@, loaded.len() as int);
        assert forall|i: int| 0 <= i < plan.removed_ids@.len() implies is_requested(
            (#[trigger] plan.removed_ids@[i])@,
            config.embedding_ids@,
        ) by {
            assert(texts(plan.removed_ids@)[i] == plan.removed_ids@[i]@);
        }
    }
    match &key_bytes {
        Some(key) => store.save(store_path.as_str(), &plan.retained, Some(key.as_slice()))?,
        None => store.save(store_path.as_str(), &plan.retained, None)?,
    };
    let mut line = "Removed ".to_owned();
    let n = decimal(plan.removed_ids.len() as u64);
    line.append(n.as_str());
    line.append(" embedding(s) for user ");
    line.append(config.user.as_str());
    logs.push(line);
    let mut line = "Feature store now contains ".to_owned();
    let n = decimal(plan.retained.len() as u64);
    line.append(n.as_str());
    line.append(" embedding(s)");
    logs.push(line);
    let remaining = plan.retained.len();
    Ok(
        FaceRemovalOutcome {
            user: config.user.clone(),
            store_path,
            removed_ids: plan.removed_ids,
            remaining,
            cleared: false,
            logs,
        },
    )
}

/// Whether every record holds a vector of `length` values.
pub open spec fn all_of_length(records: Seq<EnrolledEmbedding>, length: nat) -> bool {
    forall|i: int| 0 <= i < records.len() ==> (#[trigger] records[i]).embedding@.len() == length
}

/// Enrollment keeps a store sound: where the records of the store and the
/// faces that join them all hold vectors of one length, so do the records
/// of the store afterwards.
pub proof fn lemma_enrollment_keeps_one_length(
    records: Seq<EnrolledEmbedding>,
    existing: Seq<EnrolledEmbedding>,
    faces: Seq<StampedFace>,
    source: Seq<char>,
    length: nat,
)
    requires
        extends_store(records, existing, faces, source, faces.len() as int),
        all_of_length(existing, length),
        forall|i: int| 0 <= i < faces.len() ==> (#[trigger] faces[i]).face.embedding@.len() == length,
    ensures
        all_of_length(records, length),
{
    assert forall|i: int| 0 <= i < records.len() implies (#[trigger] records[i]).embedding@.len()
        == length by {
        if i < existing.len() {
            assert(records.take(existing.len() as int)[i] == records[i]);
            assert(existing[i].embedding@.len() == length);
        } else {
            let k = i - existing.len();
            assert(is_enrolled_from(
                records[existing.len() + k],
                faces[k].face,
                source,
                faces[k].stamp.id@,
                faces[k].stamp.created_at@,
            ));
        }
    }
}

/// Removal keeps a store sound: what stays was there before, so records
/// that all held vectors of one length still do.
pub proof fn lemma_removal_keeps_one_length(
    existing: Seq<EnrolledEmbedding>,
    requested: Seq<String>,
    length: nat,
)
    requires
        all_of_length(existing, length),
    ensures
        all_of_length(retained_records(existing, requested, existing.len() as int), length),
{
    lemma_removal_takes_what_is_asked(existing, requested, existing.len() as int);
    let retained = retained_records(existing, requested, existing.len() as int);
    assert forall|i: int| 0 <= i < retained.len() implies (#[trigger] retained[i]).embedding@.len()
        == length by {
        assert(existing.take(existing.len() as int) == existing);
        assert(existing.contains(retained[i]));
        let j = choose|j: int| 0 <= j < existing.len() && #[trigger] existing[j] == retained[i];
        assert(existing[j].embedding@.len() == length);
    }
}

} // verus!
