//! What a client supplies with an upload: a display name and an extension,
//! both taken from the file name of the request.

use vstd::prelude::*;

verus! {

/// The index of the last `.` of `text`, or -1 where it holds none.
pub open spec fn last_dot(text: Seq<char>) -> int
    decreases text.len(),
{
    if text.len() == 0 {
        -1
    } else if text.last() == '.' {
        text.len() - 1
    } else {
        last_dot(text.drop_last())
    }
}

/// The part of a file name before its last `.`: the whole name where it has
/// none.
pub open spec fn stem_of(text: Seq<char>) -> Seq<char> {
    if last_dot(text) < 0 {
        text
    } else {
        text.subrange(0, last_dot(text))
    }
}

/// The part of a file name after its last `.`, where it has one.
pub open spec fn extension_of(text: Seq<char>) -> Option<Seq<char>> {
    if last_dot(text) < 0 {
        None
    } else {
        Some(text.subrange(last_dot(text) + 1, text.len() as int))
    }
}

pub open spec fn is_file_name_char(c: char) -> bool {
    ('a' <= c && c <= 'z') || ('A' <= c && c <= 'Z') || ('0' <= c && c <= '9') || c == '_' || c
        == '.' || c == '-'
}

/// The file names that an upload may carry: 1 to 100 characters, each a
/// basic Latin letter, a digit, an underscore, a dot or a hyphen.
pub open spec fn is_valid_file_name(text: Seq<char>) -> bool {
    &&& 1 <= text.len() <= 100
    &&& forall|i: int| 0 <= i < text.len() ==> is_file_name_char(#[trigger] text[i])
}

/// `last_dot` names a dot after which no other dot follows, and is -1 only
/// where the text holds no dot at all.
pub proof fn lemma_last_dot(text: Seq<char>)
    ensures
        -1 <= last_dot(text) < text.len(),
        last_dot(text) >= 0 ==> text[last_dot(text)] == '.',
        forall|j: int| last_dot(text) < j < text.len() ==> #[trigger] text[j] != '.',
    decreases text.len(),
{
    if text.len() > 0 && text.last() != '.' {
        let shorter = text.drop_last();
        lemma_last_dot(shorter);
        assert forall|j: int| last_dot(text) < j < text.len() implies #[trigger] text[j]
            != '.' by {
            if j < shorter.len() {
                assert(shorter[j] == text[j]);
            }
        }
    }
}

/// The display name and extension of one upload.
#[derive(Debug, Clone)]
pub struct UploadInfo {
    name: String,
    extension: String,
}

/// What an `UploadInfo` holds, as plain text.
pub struct UploadInfoView {
    pub name: Seq<char>,
    pub extension: Seq<char>,
}

impl View for UploadInfo {
    type V = UploadInfoView;

    closed spec fn view(&self) -> UploadInfoView {
        UploadInfoView { name: self.name@, extension: self.extension@ }
    }
}

impl UploadInfo {
    pub fn new(name: String, extension: String) -> (info: Self)
        ensures
            info@.name == name@,
            info@.extension == extension@,
    {
        Self { name, extension }
    }

    pub fn name(&self) -> (name: &String)
        ensures
            name@ == self@.name,
    {
        &self.name
    }

    pub fn extension(&self) -> (extension: &String)
        ensures
            extension@ == self@.extension,
    {
        &self.extension
    }

    /// Splits the file name of a request at its last dot. A name without a dot
    /// has an empty extension.
    pub fn from_file_name(file_name: &str) -> (info: Self)
        ensures
            info@.name == stem_of(file_name@),
            info@.extension == match extension_of(file_name@) {
                Some(extension) => extension,
                None => Seq::<char>::empty(),
            },
    {
        let name = get_file_name(file_name);
        let extension = match get_file_extension(file_name) {
            Some(extension) => extension,
            None => String::new(),
        };
        Self { name, extension }
    }

    /// The file name under which the upload is handed out: the name, a dot,
    /// and the extension.
    pub open spec fn spec_file_name(&self) -> Seq<char> {
        self@.name + seq!['.'] + self@.extension
    }

    /// The file name under which the upload is handed out: the name, a dot,
    /// and the extension.
    pub fn file_name(&self) -> (file_name: String)
        ensures
            file_name@ == self.spec_file_name(),
    {
        proof {
            reveal_strlit(".");
        }
        assert("."@ == seq!['.']);
        self.name.clone().concat(".").concat(self.extension.as_str())
    }

    /// Whether a download that asks for the upload by file name asks for the
    /// right one.
    pub fn is_named(&self, requested: &str) -> (named: bool)
        ensures
            named == (requested@ == self.spec_file_name()),
    {
        self.file_name() == requested.to_owned()
    }

    /// A copy with the same name and extension.
    pub fn duplicate(&self) -> (copy: Self)
        ensures
            copy@ == self@,
    {
        Self { name: self.name.clone(), extension: self.extension.clone() }
    }
}

/// Finds the last dot of `text`, reading from the end.
fn find_last_dot(text: &str) -> (found: Option<usize>)
    ensures
        found is None <==> last_dot(text@) < 0,
        found matches Some(i) ==> i as int == last_dot(text@),
{
    let len: usize = text.unicode_len();
    let mut end: usize = len;
    assert(text@.subrange(0, end as int) == text@);
    while end > 0
        invariant
            end <= len,
            len == text@.len(),
            last_dot(text@) == last_dot(text@.subrange(0, end as int)),
        decreases end,
    {
        let ghost prefix = text@.subrange(0, end as int);
        assert(prefix.last() == text@[end as int - 1]);
        assert(prefix.drop_last() == text@.subrange(0, end as int - 1));
        if text.get_char(end - 1) == '.' {
            return Some(end - 1);
        }
        end -= 1;
    }
    assert(text@.subrange(0, 0).len() == 0);
    None
}

/// The part of a file name before its last dot.
pub fn get_file_name(name: &str) -> (stem: String)
    ensures
        stem@ == stem_of(name@),
{
    match find_last_dot(name) {
        None => name.to_owned(),
        Some(dot) => {
            proof {
                lemma_last_dot(name@);
            }
            name.substring_char(0, dot).to_owned()
        },
    }
}

/// The part of a file name after its last dot, where it has one.
pub fn get_file_extension(name: &str) -> (extension: Option<String>)
    ensures
        extension is Some <==> extension_of(name@) is Some,
        extension matches Some(text) ==> extension_of(name@) == Some(text@),
{
    match find_last_dot(name) {
        None => None,
        Some(dot) => {
            proof {
                lemma_last_dot(name@);
            }
            let len: usize = name.unicode_len();
            Some(name.substring_char(dot + 1, len).to_owned())
        },
    }
}

fn file_name_char(c: char) -> (b: bool)
    ensures
        b == is_file_name_char(c),
{
    (c >= 'a' && c <= 'z') || (c >= 'A' && c <= 'Z') || (c >= '0' && c <= '9') || c == '_' || c
        == '.' || c == '-'
}

/// Whether an upload may carry this file name.
pub fn validate_file_name(name: &str) -> (valid: bool)
    ensures
        valid == is_valid_file_name(name@),
{
    let len: usize = name.unicode_len();
    if len < 1 || len > 100 {
        return false;
    }
    let mut i: usize = 0;
    while i < len
        invariant
            i <= len,
            len == name@.len(),
            forall|j: int| 0 <= j < i ==> is_file_name_char(#[trigger] name@[j]),
        decreases len - i,
    {
        if !file_name_char(name.get_char(i)) {
            return false;
        }
        i += 1;
    }
    true
}

} // verus!
