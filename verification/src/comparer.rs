//! Comparing the faces of one payload with the faces of others.
//!
//! The similarity of two vectors is computed by the caller. What is made of
//! the similarities is decided here: which pair of faces is the best, in
//! which order targets are reported, and what counts as a mismatch.
use crate::errors::AppError;
use crate::scalar::{Scalar, NEG_INFINITY_BITS};
use crate::text::{decimal, decimal_digits, text_views};
use vstd::prelude::*;
use vstd::string::StringExecFns;

verus! {

/// What one comparison is run with.
#[derive(Debug, Clone, PartialEq, Eq)]
pub struct FaceComparisonConfig {
    pub input: String,
    pub compare_targets: Vec<String>,
}

/// How well one target compares with the input.
#[derive(Debug, Clone, PartialEq, Eq)]
pub struct FaceComparisonScore {
    pub target_path: String,
    pub best_similarity: Scalar,
    pub input_face_index: usize,
    pub target_face_index: usize,
}

/// One comparison, with what was logged on the way.
#[derive(Debug, Clone, PartialEq, Eq)]
pub struct FaceComparisonOutcome {
    pub scores: Vec<FaceComparisonScore>,
    pub logs: Vec<String>,
}

/// The best pair of faces found so far: its similarity, and the indices of
/// the input face and the target face.
pub type BestPair = (Scalar, usize, usize);

/// The best pair once the similarities of input face `input` to the target
/// faces from index `from` on are taken in: a pair takes the lead only with
/// a similarity strictly above the leading one.
pub open spec fn best_in_row(row: Seq<Scalar>, input: usize, from: int, best: BestPair) -> BestPair
    decreases row.len() - from,
{
    if from < 0 || from >= row.len() {
        best
    } else if row[from].spec_gt(&best.0) {
        best_in_row(row, input, from + 1, (row[from], input, from as usize))
    } else {
        best_in_row(row, input, from + 1, best)
    }
}

/// The best pair once the rows from index `from` on are taken in, row by
/// row.
pub open spec fn best_in_rows(rows: Seq<Vec<Scalar>>, from: int, best: BestPair) -> BestPair
    decreases rows.len() - from,
{
    if from < 0 || from >= rows.len() {
        best
    } else {
        best_in_rows(rows, from + 1, best_in_row(rows[from]@, from as usize, 0, best))
    }
}

/// The best pair of all: negative infinity between the first faces where
/// nothing beats it.
pub open spec fn best_pair(rows: Seq<Vec<Scalar>>) -> BestPair {
    best_in_rows(rows, 0, (Scalar { bits: NEG_INFINITY_BITS }, 0usize, 0usize))
}

/// Finds the best pair of faces, given the similarity of every input face
/// (one row each) to every target face (one column each). Of equally
/// similar pairs the first in row order wins.
pub fn compute_best_similarity(similarities: &Vec<Vec<Scalar>>) -> (best: (Scalar, usize, usize))
    ensures
        best == best_pair(similarities@),
{
    let mut best: (Scalar, usize, usize) = (Scalar::negative_infinity(), 0, 0);
    let mut i: usize = 0;
    while i < similarities.len()
        invariant
            i <= similarities.len(),
            best_pair(similarities@) == best_in_rows(similarities@, i as int, best),
        decreases similarities.len() - i,
    {
        let row = &similarities[i];
        let ghost start = best;
        let mut j: usize = 0;
        while j < row.len()
            invariant
                j <= row.len(),
                best_in_row(row@, i, 0, start) == best_in_row(row@, i, j as int, best),
            decreases row.len() - j,
        {
            if row[j].gt(&best.0) {
                best = (row[j], i, j);
            }
            j += 1;
        }
        i += 1;
    }
    best
}

/// The message for a target whose vectors have another length than the
/// input's.
pub open spec fn dimension_mismatch(expected: usize, found: usize) -> Seq<char> {
    "embedding length mismatch: expected "@ + decimal_digits(expected as nat) + " values, found "@
        + decimal_digits(found as nat)
}

/// Checks that the vectors of the target at `target` have the length of the
/// input's.
pub fn ensure_same_dimension(target: &str, input_dim: usize, target_dim: usize) -> (checked:
    Result<(), AppError>)
    ensures
        input_dim == target_dim ==> checked is Ok,
        input_dim != target_dim ==> (checked matches Err(
            AppError::InvalidFeatureFile { path, message },
        ) && path@ == target@ && message@ == dimension_mismatch(input_dim, target_dim)),
{
    if target_dim != input_dim {
        let mut m = "embedding length mismatch: expected ".to_owned();
        let e = decimal(input_dim as u64);
        m.append(e.as_str());
        m.append(" values, found ");
        let f = decimal(target_dim as u64);
        m.append(f.as_str());
        return Err(AppError::InvalidFeatureFile { path: target.to_owned(), message: m });
    }
    Ok(())
}

/// `ranked` with `score` put in its place: before the first score it is
/// strictly above, else at the end.
pub open spec fn with_score(ranked: Seq<FaceComparisonScore>, score: FaceComparisonScore) -> Seq<
    FaceComparisonScore,
>
    decreases ranked.len(),
{
    if ranked.len() == 0 {
        seq![score]
    } else if score.best_similarity.spec_gt(&ranked[0].best_similarity) {
        seq![score] + ranked
    } else {
        seq![ranked[0]] + with_score(ranked.drop_first(), score)
    }
}

/// The first `count` of `scores`, ranked: the most similar first, and equally
/// similar ones in the order they came in.
pub open spec fn ranked_scores(scores: Seq<FaceComparisonScore>, count: int) -> Seq<
    FaceComparisonScore,
>
    decreases count,
{
    if count <= 0 || count > scores.len() {
        seq![]
    } else {
        with_score(ranked_scores(scores, count - 1), scores[count - 1])
    }
}

/// Where `score` lands in `ranked`.
pub open spec fn place_of(ranked: Seq<FaceComparisonScore>, score: FaceComparisonScore) -> int
    decreases ranked.len(),
{
    if ranked.len() == 0 {
        0
    } else if score.best_similarity.spec_gt(&ranked[0].best_similarity) {
        0
    } else {
        1 + place_of(ranked.drop_first(), score)
    }
}

/// Putting a score in its place inserts it behind every score it does not
/// beat and in front of the first it beats.
pub proof fn lemma_with_score_is_insertion(
    ranked: Seq<FaceComparisonScore>,
    score: FaceComparisonScore,
)
    ensures
        0 <= place_of(ranked, score) <= ranked.len(),
        with_score(ranked, score) == ranked.insert(place_of(ranked, score), score),
        forall|k: int|
            0 <= k < place_of(ranked, score) ==> !score.best_similarity.spec_gt(
                &(#[trigger] ranked[k]).best_similarity,
            ),
        place_of(ranked, score) < ranked.len() ==> score.best_similarity.spec_gt(
            &ranked[place_of(ranked, score)].best_similarity,
        ),
    decreases ranked.len(),
{
    if ranked.len() == 0 {
        assert(ranked.insert(0, score) =~= seq![score]);
    } else if score.best_similarity.spec_gt(&ranked[0].best_similarity) {
        assert(ranked.insert(0, score) =~= seq![score] + ranked);
    } else {
        let rest = ranked.drop_first();
        lemma_with_score_is_insertion(rest, score);
        let p = place_of(rest, score);
        assert(ranked.insert(p + 1, score) =~= seq![ranked[0]] + rest.insert(p, score));
        assert forall|k: int| 0 <= k < p + 1 implies !score.best_similarity.spec_gt(
            &(#[trigger] ranked[k]).best_similarity,
        ) by {
            if k > 0 {
                assert(ranked[k] == rest[k - 1]);
            }
        }
        if p + 1 < ranked.len() {
            assert(ranked[p + 1] == rest[p]);
        }
    }
}

/// Ranks the scores of a comparison: the most similar target first. Targets
/// that are equally similar, and targets whose similarity is no number,
/// keep the order they came in behind those they do not beat.
pub fn rank_scores(scores: Vec<FaceComparisonScore>) -> (ranked: Vec<FaceComparisonScore>)
    ensures
        ranked@ == ranked_scores(scores@, scores@.len() as int),
{
    let ghost all = scores@;
    let mut scores = scores;
    let mut ranked: Vec<FaceComparisonScore> = Vec::new();
    let total = scores.len();
    let mut taken: usize = 0;
    // The scores are turned round first, so that they can be taken off the
    // end in the order they came in.
    let mut pending: Vec<FaceComparisonScore> = Vec::new();
    while scores.len() > 0
        invariant
            scores@.len() + pending@.len() == all.len(),
            forall|k: int|
                0 <= k < pending@.len() ==> pending@[k] == all[all.len() - 1 - k],
            scores@ == all.take(scores@.len() as int),
        decreases scores@.len(),
    {
        let last = scores.pop().unwrap();
        pending.push(last);
        assert(scores@ == all.take(scores@.len() as int));
    }
    while pending.len() > 0
        invariant
            taken + pending@.len() == all.len(),
            total == all.len(),
            forall|k: int|
                0 <= k < pending@.len() ==> pending@[k] == all[all.len() - 1 - k],
            ranked@ == ranked_scores(all, taken as int),
        decreases pending@.len(),
    {
        let score = pending.pop().unwrap();
        assert(score == all[taken as int]);
        let mut place: usize = 0;
        assert(ranked@.subrange(0, ranked@.len() as int) == ranked@);
        while place < ranked.len() && !score.best_similarity.gt(&ranked[place].best_similarity)
            invariant
                place <= ranked.len(),
                place_of(ranked@, score) == place + place_of(
                    ranked@.subrange(place as int, ranked@.len() as int),
                    score,
                ),
            decreases ranked.len() - place,
        {
            let ghost tail = ranked@.subrange(place as int, ranked@.len() as int);
            assert(tail[0] == ranked@[place as int]);
            assert(tail.drop_first() == ranked@.subrange(place + 1, ranked@.len() as int));
            place += 1;
        }
        proof {
            let tail = ranked@.subrange(place as int, ranked@.len() as int);
            if place < ranked.len() {
                assert(tail[0] == ranked@[place as int]);
            }
            assert(place_of(tail, score) == 0);
            lemma_with_score_is_insertion(ranked@, score);
        }
        ranked.insert(place, score);
        taken += 1;
    }
    ranked
}

/// Ranking keeps every score and puts them in order: none is strictly above
/// the one before it, provided the similarities are numbers.
pub proof fn lemma_ranked_is_ordered(scores: Seq<FaceComparisonScore>, count: int)
    requires
        0 <= count <= scores.len(),
        forall|i: int| 0 <= i < scores.len() ==> !(#[trigger] scores[i]).best_similarity.spec_is_nan(),
    ensures
        ranked_scores(scores, count).len() == count,
        ranked_scores(scores, count).to_multiset() == scores.take(count).to_multiset(),
        forall|i: int|
            0 <= i < ranked_scores(scores, count).len() ==> !(#[trigger] ranked_scores(
                scores,
                count,
            )[i]).best_similarity.spec_is_nan(),
        forall|i: int, j: int|
            0 <= i < j < count ==> (#[trigger] ranked_scores(
                scores,
                count,
            )[i]).best_similarity.spec_ge(
                &(#[trigger] ranked_scores(scores, count)[j]).best_similarity,
            ),
    decreases count,
{
    if count == 0 {
        assert(scores.take(0) =~= Seq::<FaceComparisonScore>::empty());
    } else {
        lemma_ranked_is_ordered(scores, count - 1);
        let before = ranked_scores(scores, count - 1);
        let score = scores[count - 1];
        lemma_with_score_is_insertion(before, score);
        let p = place_of(before, score);
        let after = before.insert(p, score);
        assert(scores.take(count) =~= scores.take(count - 1).push(score));
        vstd::seq_lib::to_multiset_build(scores.take(count - 1), score);
        assert(after.remove(p) =~= before);
        vstd::seq_lib::to_multiset_remove(after, p);
        after.to_multiset_ensures();
        assert(after[p] == score);
        assert(after.contains(score));
        assert(after.to_multiset() =~= before.to_multiset().insert(score));
        assert forall|i: int, j: int| 0 <= i < j < count implies (#[trigger] after[i]).best_similarity.spec_ge(
            &(#[trigger] after[j]).best_similarity,
        ) by {
            if j < p {
                assert(after[i] == before[i] && after[j] == before[j]);
            } else if j == p {
                assert(after[i] == before[i]);
                assert(!score.best_similarity.spec_gt(&before[i].best_similarity));
            } else if i < p {
                assert(after[i] == before[i] && after[j] == before[j - 1]);
            } else if i == p {
                assert(after[j] == before[j - 1]);
                assert(score.best_similarity.spec_gt(&before[p].best_similarity));
                if j - 1 > p {
                    assert(before[p].best_similarity.spec_ge(&before[j - 1].best_similarity));
                }
            } else {
                assert(after[i] == before[i - 1] && after[j] == before[j - 1]);
            }
        }
        assert forall|i: int| 0 <= i < after.len() implies !(#[trigger] after[i]).best_similarity.spec_is_nan() by {
            if i < p {
                assert(after[i] == before[i]);
            } else if i > p {
                assert(after[i] == before[i - 1]);
            }
        }
    }
}

/// The line that reports a score; `similarity` is the similarity as it is
/// to be shown.
pub open spec fn score_line(score: FaceComparisonScore, similarity: Seq<char>) -> Seq<char> {
    "Target "@ + score.target_path@ + " => cosine similarity "@ + similarity + " (input face #"@
        + decimal_digits(score.input_face_index as nat) + ", target face #"@ + decimal_digits(
        score.target_face_index as nat,
    ) + ")"@
}

/// Writes the line that reports a score.
pub fn describe_score(score: &FaceComparisonScore, similarity: &str) -> (line: String)
    ensures
        line@ == score_line(*score, similarity@),
{
    let mut line = "Target ".to_owned();
    line.append(score.target_path.as_str());
    line.append(" => cosine similarity ");
    line.append(similarity);
    line.append(" (input face #");
    let i = decimal(score.input_face_index as u64);
    line.append(i.as_str());
    line.append(", target face #");
    let t = decimal(score.target_face_index as u64);
    line.append(t.as_str());
    line.append(")");
    line
}

/// A score and its similarity as it is to be shown.
#[derive(Debug, Clone, PartialEq, Eq)]
pub struct ShownScore {
    pub score: FaceComparisonScore,
    pub similarity: String,
}

/// The lines that report the first `count` scores.
pub open spec fn score_lines(shown: Seq<ShownScore>, count: int) -> Seq<Seq<char>>
    decreases count,
{
    if count <= 0 || count > shown.len() {
        seq![]
    } else {
        score_lines(shown, count - 1).push(
            score_line(shown[count - 1].score, shown[count - 1].similarity@),
        )
    }
}

/// The lines logged for a comparison of the `faces` faces of the payload at
/// `input` with the targets whose scores are given, in the order given: how
/// many faces were loaded, the metric, and one line per target.
pub fn comparison_logs(faces: usize, input: &str, shown: &Vec<ShownScore>) -> (logs: Vec<String>)
    ensures
        text_views(logs@) == seq![
            "Loaded "@ + decimal_digits(faces as nat) + " face(s) from "@ + input@,
            "Similarity metric: cosine"@,
        ] + score_lines(shown@, shown@.len() as int),
{
    let mut logs: Vec<String> = Vec::new();
    let mut line = "Loaded ".to_owned();
    let n = decimal(faces as u64);
    line.append(n.as_str());
    line.append(" face(s) from ");
    line.append(input);
    logs.push(line);
    logs.push("Similarity metric: cosine".to_owned());
    let ghost head = text_views(logs@);
    assert(head =~= seq![
        "Loaded "@ + decimal_digits(faces as nat) + " face(s) from "@ + input@,
        "Similarity metric: cosine"@,
    ]);
    let mut i: usize = 0;
    while i < shown.len()
        invariant
            i <= shown.len(),
            text_views(logs@) == head + score_lines(shown@, i as int),
        decreases shown.len() - i,
    {
        let line = describe_score(&shown[i].score, shown[i].similarity.as_str());
        let ghost before = text_views(logs@);
        logs.push(line);
        assert(text_views(logs@) == before.push(
            score_line(shown@[i as int].score, shown@[i as int].similarity@),
        ));
        assert(head + score_lines(shown@, i as int).push(
            score_line(shown@[i as int].score, shown@[i as int].similarity@),
        ) == (head + score_lines(shown@, i as int)).push(
            score_line(shown@[i as int].score, shown@[i as int].similarity@),
        ));
        i += 1;
    }
    logs
}

} // verus!
