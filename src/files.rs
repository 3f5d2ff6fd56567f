//! Copying listed files: each file gets a destination `<stem>_<timestamp>.<ext>`
//! in the destination directory and a Markdown line that links to it.

use vstd::prelude::*;
use crate::clock::{is_timestamp, timestamp};
use crate::error::PasteError;
use crate::naming::{
    extension_of, file_name_spec, image_path, is_image_file, join_path, joined,
    lemma_last_index_bounds, path_extension, path_stem, stem_of,
};

verus! {

/// One file to copy: where from, where to, and the line to print once copied.
pub struct CopyStep {
    pub source: String,
    pub dest: String,
    pub line: String,
}

/// `s` with every space replaced by an underscore.
pub open spec fn underscored(s: Seq<char>) -> Seq<char> {
    Seq::new(s.len(), |i: int| if s[i] == ' ' { '_' } else { s[i] })
}

/// The error that stops a file from being planned, if any.
pub open spec fn copy_error(file: Seq<char>) -> Option<PasteError> {
    if path_stem(file) is None {
        Some(PasteError::MissingFilename)
    } else if path_extension(file) is None {
        Some(PasteError::MissingExtension)
    } else {
        None
    }
}

/// The label of a listed file: its stem with spaces made underscores.
pub open spec fn copy_label(file: Seq<char>) -> Seq<char> {
    underscored(path_stem(file)->Some_0)
}

/// The name a listed file is copied under: `<label>_<stamp>.<ext>`.
pub open spec fn copy_name(file: Seq<char>, stamp: Seq<char>) -> Seq<char> {
    copy_label(file) + seq!['_'] + stamp + seq!['.'] + path_extension(file)->Some_0
}

/// The destination path of a listed file.
pub open spec fn copy_dest(file: Seq<char>, dir: Seq<char>, stamp: Seq<char>) -> Seq<char> {
    joined(dir, copy_name(file, stamp))
}

/// The Markdown line for a copied file: an image link for images, a plain link
/// otherwise.
pub open spec fn copy_line(file: Seq<char>, dir: Seq<char>, stamp: Seq<char>) -> Seq<char> {
    (if image_path(file) { seq!['!'] } else { Seq::empty() }) + seq!['['] + copy_label(file)
        + seq![']', '('] + copy_dest(file, dir, stamp) + seq![')']
}

/// `step` is the plan for `file` under `stamp`.
pub open spec fn step_for(file: Seq<char>, dir: Seq<char>, stamp: Seq<char>, step: CopyStep) -> bool {
    &&& copy_error(file) is None
    &&& step.source@ == file
    &&& step.dest@ == copy_dest(file, dir, stamp)
    &&& step.line@ == copy_line(file, dir, stamp)
}

/// The outcome of planning a list of files with the given stamps: the files
/// before the first bad one in order, each with its destination and line, and
/// the error of the first bad one.
pub open spec fn planned(
    files: Seq<String>,
    dir: Seq<char>,
    stamps: Seq<String>,
    steps: Seq<CopyStep>,
    err: Option<PasteError>,
) -> bool {
    &&& steps.len() <= files.len()
    &&& forall|i: int|
        0 <= i < steps.len() ==> step_for(files[i]@, dir, stamps[i]@, #[trigger] steps[i])
    &&& match err {
        None => steps.len() == files.len(),
        Some(e) => steps.len() < files.len() && copy_error(files[steps.len() as int]@) == Some(e),
    }
}

/// The text with every space replaced by an underscore.
pub fn underscore_spaces(s: &str) -> (r: String)
    ensures
        r@ == underscored(s@),
{
    let n = s.unicode_len();
    let mut r = String::new();
    let mut i: usize = 0;
    while i < n
        invariant
            i <= n == s@.len(),
            r@ =~= underscored(s@).subrange(0, i as int),
        decreases n - i,
    {
        if s.get_char(i) == ' ' {
            r.append("_");
            proof {
                reveal_strlit("_");
            }
        } else {
            r.append(s.substring_char(i, i + 1));
        }
        i = i + 1;
    }
    r
}

/// Plans the copy of one listed file under the given timestamp.
pub fn plan_copy(file: &str, dest_dir: &str, stamp: &str) -> (r: Result<CopyStep, PasteError>)
    ensures
        match r {
            Ok(step) => {
                &&& copy_error(file@) is None
                &&& step.source@ == file@
                &&& step.dest@ == copy_dest(file@, dest_dir@, stamp@)
                &&& step.line@ == copy_line(file@, dest_dir@, stamp@)
            },
            Err(e) => copy_error(file@) == Some(e),
        },
{
    let image = is_image_file(file);
    let stem = match stem_of(file) {
        Some(s) => s,
        None => return Err(PasteError::MissingFilename),
    };
    let label = underscore_spaces(stem.as_str());
    let ext = match extension_of(file) {
        Some(e) => e,
        None => return Err(PasteError::MissingExtension),
    };
    let mut name = label.clone();
    name.append("_");
    name.append(stamp);
    name.append(".");
    name.append(ext.as_str());
    let dest = join_path(dest_dir, name.as_str());
    let mut line = if image {
        String::from_str("![")
    } else {
        String::from_str("[")
    };
    line.append(label.as_str());
    line.append("](");
    line.append(dest.as_str());
    line.append(")");
    proof {
        reveal_strlit("_");
        reveal_strlit(".");
        reveal_strlit("![");
        reveal_strlit("[");
        reveal_strlit("](");
        reveal_strlit(")");
        assert(name@ =~= copy_name(file@, stamp@));
        assert(line@ =~= copy_line(file@, dest_dir@, stamp@));
    }
    Ok(CopyStep { source: String::from_str(file), dest, line })
}

/// Plans the copies of a list of files, the i-th under the i-th stamp, up to
/// the first file that cannot be planned.
pub fn plan_copies_at(files: &Vec<String>, dest_dir: &str, stamps: &Vec<String>) -> (r: (
    Vec<CopyStep>,
    Option<PasteError>,
))
    requires
        stamps@.len() == files@.len(),
    ensures
        planned(files@, dest_dir@, stamps@, r.0@, r.1),
{
    let mut steps: Vec<CopyStep> = Vec::new();
    let mut i: usize = 0;
    while i < files.len()
        invariant
            i <= files@.len() == stamps@.len(),
            steps@.len() == i,
            forall|j: int|
                0 <= j < i ==> step_for(files@[j]@, dest_dir@, stamps@[j]@, #[trigger] steps@[j]),
        decreases files@.len() - i,
    {
        let ghost prev = steps@;
        match plan_copy(files[i].as_str(), dest_dir, stamps[i].as_str()) {
            Ok(step) => {
                steps.push(step);
                assert forall|j: int| 0 <= j < i + 1 implies #[trigger] steps@[j] == if j
                    < i {
                    prev[j]
                } else {
                    step
                } by {}
            },
            Err(e) => {
                return (steps, Some(e));
            },
        }
        i = i + 1;
    }
    (steps, None)
}

/// The error that stops a listed file from being planned, if any.
pub fn copy_check(file: &str) -> (r: Option<PasteError>)
    ensures
        r == copy_error(file@),
{
    if stem_of(file).is_none() {
        Some(PasteError::MissingFilename)
    } else if extension_of(file).is_none() {
        Some(PasteError::MissingExtension)
    } else {
        None
    }
}

/// `step` is the plan for `file` under some rendering of a clock reading.
pub open spec fn stamped_step(file: Seq<char>, dir: Seq<char>, step: CopyStep) -> bool {
    exists|ts: Seq<char>| is_timestamp(ts) && step_for(file, dir, ts, step)
}

/// The outcome of planning a list of files, each under a timestamp read from
/// the clock once the file itself has been checked: the files before the
/// first that fails, in order, and its error, the file's own error first.
pub open spec fn planned_with_clock(
    files: Seq<String>,
    dir: Seq<char>,
    steps: Seq<CopyStep>,
    err: Option<PasteError>,
) -> bool {
    &&& steps.len() <= files.len()
    &&& forall|i: int|
        0 <= i < steps.len() ==> stamped_step(files[i]@, dir, #[trigger] steps[i])
    &&& match err {
        None => steps.len() == files.len(),
        Some(e) => steps.len() < files.len() && match copy_error(files[steps.len() as int]@) {
            Some(own) => e == own,
            None => e == PasteError::TimestampFailed,
        },
    }
}

/// Plans the copies of a list of files, each under a timestamp read from the
/// clock just for it. An empty list reads no clock and plans nothing.
pub fn plan_copies(files: &Vec<String>, dest_dir: &str) -> (r: (Vec<CopyStep>, Option<PasteError>))
    ensures
        planned_with_clock(files@, dest_dir@, r.0@, r.1),
        files@.len() == 0 ==> r.0@.len() == 0 && r.1 is None,
{
    let mut steps: Vec<CopyStep> = Vec::new();
    let mut i: usize = 0;
    while i < files.len()
        invariant
            i <= files@.len(),
            steps@.len() == i,
            forall|j: int|
                0 <= j < i ==> stamped_step(files@[j]@, dest_dir@, #[trigger] steps@[j]),
        decreases files@.len() - i,
    {
        if let Some(e) = copy_check(files[i].as_str()) {
            return (steps, Some(e));
        }
        let stamp = match timestamp() {
            Some(s) => s,
            None => return (steps, Some(PasteError::TimestampFailed)),
        };
        let ghost prev = steps@;
        match plan_copy(files[i].as_str(), dest_dir, stamp.as_str()) {
            Ok(step) => {
                steps.push(step);
                assert forall|j: int| 0 <= j < i + 1 implies #[trigger] steps@[j] == if j
                    < i {
                    prev[j]
                } else {
                    step
                } by {}
                assert(is_timestamp(stamp@) && step_for(
                    files@[i as int]@,
                    dest_dir@,
                    stamp@,
                    steps@[i as int],
                ));
            },
            Err(e) => {
                return (steps, Some(e));
            },
        }
        i = i + 1;
    }
    (steps, None)
}

/// The extension of a listed file never holds a dot.
proof fn lemma_extension_has_no_dot(file: Seq<char>)
    requires
        path_extension(file) is Some,
    ensures
        forall|i: int|
            0 <= i < path_extension(file)->Some_0.len() ==> path_extension(file)->Some_0[i] != '.',
{
    let n = file_name_spec(file)->Some_0;
    lemma_last_index_bounds(n, '.');
}

/// Two sequences that each end in a dot and a dot-free tail are equal only
/// with equal tails and equal heads.
proof fn lemma_split_at_last_dot(a: Seq<char>, e1: Seq<char>, b: Seq<char>, e2: Seq<char>)
    requires
        a + seq!['.'] + e1 == b + seq!['.'] + e2,
        forall|i: int| 0 <= i < e1.len() ==> e1[i] != '.',
        forall|i: int| 0 <= i < e2.len() ==> e2[i] != '.',
    ensures
        e1 == e2,
        a == b,
{
    let s = a + seq!['.'] + e1;
    let t = b + seq!['.'] + e2;
    if e1.len() < e2.len() {
        let p = s.len() - e1.len() - 1;
        assert(s[p] == '.');
        assert(t[p] == e2[p - b.len() - 1]);
    } else if e2.len() < e1.len() {
        let p = t.len() - e2.len() - 1;
        assert(t[p] == '.');
        assert(s[p] == e1[p - a.len() - 1]);
    }
    assert(e1 =~= s.subrange(s.len() - e1.len(), s.len() as int));
    assert(e2 =~= t.subrange(t.len() - e2.len(), t.len() as int));
    assert(a =~= s.subrange(0, a.len() as int));
    assert(b =~= t.subrange(0, b.len() as int));
}

/// Two listed files named under distinct timestamps of the same length never
/// get the same file name.
pub proof fn lemma_distinct_stamps_distinct_names(
    f1: Seq<char>,
    f2: Seq<char>,
    ts1: Seq<char>,
    ts2: Seq<char>,
)
    requires
        copy_error(f1) is None,
        copy_error(f2) is None,
        ts1 != ts2,
        ts1.len() == ts2.len(),
    ensures
        copy_name(f1, ts1) != copy_name(f2, ts2),
{
    if copy_name(f1, ts1) == copy_name(f2, ts2) {
        lemma_extension_has_no_dot(f1);
        lemma_extension_has_no_dot(f2);
        let h1 = copy_label(f1) + seq!['_'] + ts1;
        let h2 = copy_label(f2) + seq!['_'] + ts2;
        assert(copy_name(f1, ts1) =~= h1 + seq!['.'] + path_extension(f1)->Some_0);
        assert(copy_name(f2, ts2) =~= h2 + seq!['.'] + path_extension(f2)->Some_0);
        lemma_split_at_last_dot(
            h1,
            path_extension(f1)->Some_0,
            h2,
            path_extension(f2)->Some_0,
        );
        assert(ts1 =~= h1.subrange(h1.len() - ts1.len(), h1.len() as int));
        assert(ts2 =~= h2.subrange(h2.len() - ts2.len(), h2.len() as int));
    }
}

/// When every listed file has a stem and an extension, planning yields exactly
/// one step per file, in the order of the list, with no error; files planned
/// under distinct timestamps of the same length get distinct file names.
pub proof fn lemma_one_step_per_file(
    files: Seq<String>,
    dir: Seq<char>,
    stamps: Seq<String>,
    steps: Seq<CopyStep>,
    err: Option<PasteError>,
)
    requires
        stamps.len() == files.len(),
        planned(files, dir, stamps, steps, err),
        forall|i: int| 0 <= i < files.len() ==> copy_error(#[trigger] files[i]@) is None,
    ensures
        err is None,
        steps.len() == files.len(),
        forall|i: int|
            0 <= i < files.len() ==> (#[trigger] steps[i]).source@ == files[i]@ && steps[i].dest@
                == joined(dir, copy_name(files[i]@, stamps[i]@)),
        forall|i: int, j: int|
            0 <= i < files.len() && 0 <= j < files.len() && stamps[i]@ != stamps[j]@
                && stamps[i]@.len() == stamps[j]@.len() ==> copy_name(files[i]@, stamps[i]@)
                != copy_name(files[j]@, stamps[j]@),
{
    if let Some(e) = err {
        assert(copy_error(files[steps.len() as int]@) is None);
    }
    assert forall|i: int, j: int|
        0 <= i < files.len() && 0 <= j < files.len() && stamps[i]@ != stamps[j]@
            && stamps[i]@.len() == stamps[j]@.len() implies copy_name(files[i]@, stamps[i]@)
        != copy_name(files[j]@, stamps[j]@) by {
        lemma_distinct_stamps_distinct_names(files[i]@, files[j]@, stamps[i]@, stamps[j]@);
    }
    assert forall|i: int| 0 <= i < files.len() implies (#[trigger] steps[i]).source@ == files[i]@
        && steps[i].dest@ == joined(dir, copy_name(files[i]@, stamps[i]@)) by {
        assert(step_for(files[i]@, dir, stamps[i]@, steps[i]));
    }
}

} // verus!
