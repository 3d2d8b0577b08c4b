use vstd::prelude::*;

use crate::model::opt_text;

verus! {

/// A file path as the label logic reads it: its components in order, each
/// as text, or `None` where a component is not valid UTF-8; and the
/// extension of its file name, if it has one (the text after the last `.`
/// of the last component).
pub struct FilePath {
    pub parts: Vec<Option<String>>,
    pub extension: Option<String>,
}

/// The label chosen for an algorithm, or `Error` where it was to come from a
/// file name that is not valid UTF-8.
#[derive(Debug)]
pub enum LabelResult {
    Success(Option<String>),
    Error,
}

/// Whether every component is valid text.
pub open spec fn all_text(parts: Seq<Option<String>>) -> bool {
    forall|i: int| 0 <= i < parts.len() ==> (#[trigger] parts[i]) is Some
}

/// The text of a component, empty where there is none.
pub open spec fn part_text(p: Option<String>) -> Seq<char> {
    match p {
        Some(s) => s@,
        None => Seq::empty(),
    }
}

/// The components joined one after another, with `-` before each one that
/// follows a non-empty prefix.
pub open spec fn dash_join(parts: Seq<Option<String>>) -> Seq<char>
    decreases parts.len(),
{
    if parts.len() == 0 {
        Seq::empty()
    } else {
        let acc = dash_join(parts.drop_last());
        if acc.len() == 0 {
            part_text(parts.last())
        } else {
            acc + "-"@ + part_text(parts.last())
        }
    }
}

/// `label` without its last `ext.len() + 1` characters (a `.` and the
/// extension) when there is an extension and the label is long enough.
pub open spec fn strip_extension(label: Seq<char>, ext: Option<Seq<char>>) -> Seq<char> {
    match ext {
        Some(e) => if label.len() >= e.len() + 1 {
            label.subrange(0, label.len() - e.len() - 1)
        } else {
            label
        },
        None => label,
    }
}

/// The label derived from a path: `algo:` and the joined components
/// without the extension.
pub open spec fn file_label(file: FilePath) -> Seq<char> {
    "algo:"@ + strip_extension(dash_join(file.parts@), opt_text(file.extension))
}

/// The label a result carries, if it is a success with a label.
pub open spec fn result_label(r: LabelResult) -> Option<Seq<char>> {
    match r {
        LabelResult::Success(Some(l)) => Some(l@),
        _ => None,
    }
}

/// The message given when no label can be made from the file name.
pub open spec fn label_error_text() -> Seq<char> {
    "Given file name cannot be converted in a UTF-8 string: cannot generate label from file name"@
}

impl LabelResult {
    /// The label, or the message that explains why there is none.
    pub fn parse_result(self) -> (r: Result<Option<String>, &'static str>)
        ensures
            match self {
                LabelResult::Success(l) => r == Ok::<Option<String>, &'static str>(l),
                LabelResult::Error => r is Err && r->Err_0@ == label_error_text(),
            },
    {
        match self {
            Self::Success(lbl) => Ok(lbl),
            Self::Error => Err(
                "Given file name cannot be converted in a UTF-8 string: cannot generate label from file name",
            ),
        }
    }
}

/// The label to use: the one given; one made from the file name where the
/// label was asked for without a text; none where none was asked for.
pub fn get_algorithm_label(label: Option<Option<String>>, file_name: &FilePath) -> (r: LabelResult)
    ensures
        match label {
            Some(Some(l)) => r is Success && result_label(r) == Some(l@),
            Some(None) => (r is Success <==> all_text(file_name.parts@)) && (r is Success
                ==> result_label(r) == Some(file_label(*file_name))),
            None => r is Success && result_label(r) == None::<Seq<char>>,
        },
{
    match label {
        Some(Some(label)) => LabelResult::Success(Some(label)),
        Some(None) => label_from_file_name(file_name),
        None => LabelResult::Success(None),
    }
}

/// A label made from a path: `algo:`, then the components joined by `-`,
/// without the extension; `Error` where a component is not text.
pub fn label_from_file_name(file_name: &FilePath) -> (r: LabelResult)
    ensures
        r is Success <==> all_text(file_name.parts@),
        r is Success ==> result_label(r) == Some(file_label(*file_name)),
{
    let mut acc = String::new();
    let mut i: usize = 0;
    while i < file_name.parts.len()
        invariant
            i <= file_name.parts.len(),
            all_text(file_name.parts@.subrange(0, i as int)),
            acc@ == dash_join(file_name.parts@.subrange(0, i as int)),
        decreases file_name.parts.len() - i,
    {
        let ghost prev = file_name.parts@.subrange(0, i as int);
        let ghost next = file_name.parts@.subrange(0, i + 1);
        match &file_name.parts[i] {
            None => {
                assert(!all_text(file_name.parts@) ) by {
                    assert(file_name.parts@[i as int] is None);
                }
                return LabelResult::Error;
            },
            Some(curr) => {
                if acc.as_str().is_empty() {
                    acc.append(curr.as_str());
                } else {
                    acc.append("-");
                    acc.append(curr.as_str());
                }
            },
        }
        proof {
            assert(next.drop_last() =~= prev);
            assert(next.last() == file_name.parts@[i as int]);
            assert(acc@ =~= dash_join(next));
            assert forall|j: int| 0 <= j < next.len() implies (#[trigger] next[j]) is Some by {
                if j < i {
                    assert(next[j] == prev[j]);
                }
            }
        }
        i += 1;
    }
    assert(file_name.parts@.subrange(0, file_name.parts.len() as int) =~= file_name.parts@);
    let label = remove_extension(acc, file_name);
    LabelResult::Success(Some(label))
}

/// `algo:` and the label without the `.` and extension of the path, if it
/// has one.
pub fn remove_extension(label: String, file: &FilePath) -> (r: String)
    ensures
        r@ == "algo:"@ + strip_extension(label@, opt_text(file.extension)),
{
    let mut r = String::from_str("algo:");
    match &file.extension {
        Some(ext) => {
            let n = label.as_str().unicode_len();
            let e = ext.as_str().unicode_len();
            if n > e {
                let kept = label.as_str().substring_char(0, n - e - 1);
                r.append(kept);
            } else {
                r.append(label.as_str());
            }
        },
        None => {
            r.append(label.as_str());
        },
    }
    r
}

} // verus!
