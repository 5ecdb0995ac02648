//! File names: the extension that marks a source file, and the output path
//! that a source file is converted to.

use vstd::prelude::*;

verus! {

/// The extension of the files that are converted.
pub open spec fn source_extension() -> Seq<char> {
    "m4a"@
}

/// The directory that converted files are written to.
pub open spec fn output_dir() -> Seq<char> {
    "./output"@
}

/// Index of the last `.` in `name`, or -1 where there is none.
pub open spec fn last_dot(name: Seq<char>) -> int
    decreases name.len(),
{
    if name.len() == 0 {
        -1
    } else if name.last() == '.' {
        name.len() - 1
    } else {
        last_dot(name.drop_last())
    }
}

/// The extension of a file name: what follows its last `.`, where that `.`
/// is not the name's first character.
pub open spec fn extension_of(name: Seq<char>) -> Option<Seq<char>> {
    let i = last_dot(name);
    if i > 0 {
        Some(name.subrange(i + 1, name.len() as int))
    } else {
        None
    }
}

/// The file name without its extension.
pub open spec fn stem_of(name: Seq<char>) -> Seq<char> {
    let i = last_dot(name);
    if i > 0 {
        name.subrange(0, i)
    } else {
        name
    }
}

/// A source file is one whose extension is exactly the source extension.
pub open spec fn is_source_name(name: Seq<char>) -> bool {
    extension_of(name) == Some(source_extension())
}

/// Where a file of the given name is converted to.
pub open spec fn output_path_of(name: Seq<char>) -> Seq<char> {
    output_dir() + seq!['/'] + stem_of(name) + ".mp3"@
}

proof fn lemma_last_dot_bounds(name: Seq<char>)
    ensures
        -1 <= last_dot(name) < name.len(),
        last_dot(name) >= 0 ==> name[last_dot(name)] == '.',
    decreases name.len(),
{
    if name.len() > 0 && name.last() != '.' {
        lemma_last_dot_bounds(name.drop_last());
    }
}

/// The directory that converted files are written to.
pub fn output_directory() -> (r: &'static str)
    ensures
        r@ == output_dir(),
{
    "./output"
}

/// The log file, appended to by every run.
pub fn log_file_path() -> (r: &'static str)
    ensures
        r@ == "./ffmpeg.log"@,
{
    "./ffmpeg.log"
}

/// Whether two strings hold the same characters.
pub fn same_text(a: &str, b: &str) -> (r: bool)
    ensures
        r == (a@ == b@),
{
    let n = a.unicode_len();
    if n != b.unicode_len() {
        return false;
    }
    let mut i: usize = 0;
    while i < n
        invariant
            n == a@.len() == b@.len(),
            i <= n,
            forall|j: int| 0 <= j < i ==> a@[j] == b@[j],
        decreases n - i,
    {
        if a.get_char(i) != b.get_char(i) {
            return false;
        }
        i = i + 1;
    }
    assert(a@ =~= b@);
    true
}

/// Index of the last `.` in `name`, if there is one.
pub fn find_last_dot(name: &str) -> (r: Option<usize>)
    ensures
        match r {
            Some(i) => i == last_dot(name@),
            None => last_dot(name@) == -1,
        },
{
    let n = name.unicode_len();
    let mut found: Option<usize> = None;
    let mut i: usize = 0;
    while i < n
        invariant
            n == name@.len(),
            i <= n,
            match found {
                Some(k) => k == last_dot(name@.subrange(0, i as int)),
                None => last_dot(name@.subrange(0, i as int)) == -1,
            },
        decreases n - i,
    {
        let c = name.get_char(i);
        assert(name@.subrange(0, i as int + 1).drop_last() =~= name@.subrange(0, i as int));
        if c == '.' {
            found = Some(i);
        }
        i = i + 1;
    }
    assert(name@.subrange(0, n as int) =~= name@);
    found
}

/// Whether a file of this name is to be converted: its extension is `m4a`,
/// compared case-sensitively.
pub fn is_source_file(name: &str) -> (r: bool)
    ensures
        r == is_source_name(name@),
{
    proof {
        lemma_last_dot_bounds(name@);
    }
    let n = name.unicode_len();
    match find_last_dot(name) {
        Some(i) => {
            if i == 0 {
                return false;
            }
            let ext = name.substring_char(i + 1, n);
            let wanted = "m4a";
            same_text(ext, wanted)
        },
        None => false,
    }
}

/// The path that a file of this name is converted to: the output directory,
/// then the name without its extension and with `.mp3` in its place.
pub fn output_path_for(name: &str) -> (r: String)
    ensures
        r@ == output_path_of(name@),
{
    proof {
        lemma_last_dot_bounds(name@);
    }
    let n = name.unicode_len();
    let stem = match find_last_dot(name) {
        Some(i) => {
            if i > 0 {
                name.substring_char(0, i)
            } else {
                name.substring_char(0, n)
            }
        },
        None => name.substring_char(0, n),
    };
    assert(stem@ == stem_of(name@)) by {
        assert(name@.subrange(0, n as int) =~= name@);
    }
    let mut r = String::from_str("./output/");
    r.append(stem);
    r.append(".mp3");
    proof {
        reveal_strlit("./output/");
        reveal_strlit("./output");
        assert(output_dir() + seq!['/'] =~= "./output/"@);
    }
    r
}

} // verus!
