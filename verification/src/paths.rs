//! Output-path resolution: the destination of a conversion is
//! `<stem>.<lower(format)>`, directly inside the caller-provided scratch
//! directory. Paths are plain character strings with `/` as the separator.

use vstd::prelude::*;
use vstd::string::*;
use crate::error::{ConversionError, ErrorKind, invalid_input};
use crate::text::{lower_char, lower_seq, lower_ascii, push_char};

verus! {

/// The file-name portion of a path: the characters after the last
/// separator; empty when the path is empty or ends in a separator.
pub open spec fn file_name_of(p: Seq<char>) -> Seq<char>
    decreases p.len(),
{
    if p.len() == 0 {
        Seq::<char>::empty()
    } else if p.last() == '/' {
        Seq::<char>::empty()
    } else {
        file_name_of(p.drop_last()).push(p.last())
    }
}

/// The position of the last '.' of a file name, or -1 when it has none.
pub open spec fn last_dot(f: Seq<char>) -> int
    decreases f.len(),
{
    if f.len() == 0 {
        -1
    } else if f.last() == '.' {
        f.len() - 1
    } else {
        last_dot(f.drop_last())
    }
}

/// The stem of a file name: what stands before its final '.'. A '.' in
/// first position begins no extension, and a name without a '.' is all
/// stem; so the stem of a non-empty file name is never empty.
pub open spec fn stem_of(f: Seq<char>) -> Seq<char> {
    if last_dot(f) > 0 {
        f.subrange(0, last_dot(f))
    } else {
        f
    }
}

/// The extension of a file name: what follows its final '.', if any.
pub open spec fn extension_of(f: Seq<char>) -> Option<Seq<char>> {
    if last_dot(f) > 0 {
        Some(f.subrange(last_dot(f) + 1, f.len() as int))
    } else {
        None
    }
}

/// A directory path joined with a file name, with exactly one separator
/// between them.
pub open spec fn joined(dir: Seq<char>, name: Seq<char>) -> Seq<char> {
    if dir.len() == 0 {
        name
    } else if dir.last() == '/' {
        dir + name
    } else {
        dir + seq!['/'] + name
    }
}

/// The destination path of a conversion: the input's file-name stem, a
/// '.', and the lower-cased requested format, joined to the scratch
/// directory.
pub open spec fn resolved_output(input: Seq<char>, format: Seq<char>, scratch: Seq<char>) -> Seq<
    char,
> {
    joined(scratch, stem_of(file_name_of(input)) + seq!['.'] + lower_seq(format))
}

proof fn lemma_file_name_suffix(p: Seq<char>, k: int)
    requires
        0 <= k <= p.len(),
        forall|j: int| k <= j < p.len() ==> p[j] != '/',
        k == 0 || p[k - 1] == '/',
    ensures
        file_name_of(p) == p.subrange(k, p.len() as int),
    decreases p.len(),
{
    if k == p.len() {
        if p.len() == 0 {
            assert(file_name_of(p) =~= p.subrange(k, p.len() as int));
        } else {
            assert(p.last() == '/');
            assert(file_name_of(p) =~= p.subrange(k, p.len() as int));
        }
    } else {
        assert(p[p.len() - 1] != '/');
        assert(forall|j: int| k <= j < p.drop_last().len() ==> p.drop_last()[j] != '/');
        lemma_file_name_suffix(p.drop_last(), k);
        assert(file_name_of(p) =~= p.subrange(k, p.len() as int));
    }
}

proof fn lemma_last_dot_at(f: Seq<char>, j: int)
    requires
        0 <= j < f.len(),
        f[j] == '.',
        forall|l: int| j < l < f.len() ==> f[l] != '.',
    ensures
        last_dot(f) == j,
    decreases f.len(),
{
    if j == f.len() - 1 {
    } else {
        assert(f.last() != '.');
        assert(f.drop_last()[j] == '.');
        assert(forall|l: int| j < l < f.drop_last().len() ==> f.drop_last()[l] != '.');
        lemma_last_dot_at(f.drop_last(), j);
    }
}

proof fn lemma_no_dot(f: Seq<char>)
    requires
        forall|l: int| 0 <= l < f.len() ==> f[l] != '.',
    ensures
        last_dot(f) == -1,
    decreases f.len(),
{
    if f.len() == 0 {
    } else {
        assert(forall|l: int| 0 <= l < f.drop_last().len() ==> f.drop_last()[l] != '.');
        lemma_no_dot(f.drop_last());
    }
}

/// No character of a path's file name is a separator.
proof fn lemma_file_name_no_sep(p: Seq<char>)
    ensures
        forall|i: int| 0 <= i < file_name_of(p).len() ==> file_name_of(p)[i] != '/',
    decreases p.len(),
{
    if p.len() == 0 {
    } else if p.last() == '/' {
    } else {
        lemma_file_name_no_sep(p.drop_last());
        let f = file_name_of(p.drop_last());
        assert forall|i: int| 0 <= i < file_name_of(p).len() implies file_name_of(p)[i]
            != '/' by {
            if i < f.len() {
                assert(f.push(p.last())[i] == f[i]);
            } else {
                assert(f.push(p.last())[i] == p.last());
            }
        }
    }
}

/// The last '.' of a file name lies inside it.
proof fn lemma_last_dot_bound(f: Seq<char>)
    ensures
        -1 <= last_dot(f) < f.len(),
    decreases f.len(),
{
    if f.len() == 0 {
    } else if f.last() == '.' {
    } else {
        lemma_last_dot_bound(f.drop_last());
    }
}

/// Law: a non-empty file name has a non-empty stem, so resolution fails
/// only for a path without a file name.
pub proof fn lemma_stem_nonempty(f: Seq<char>)
    requires
        f.len() > 0,
    ensures
        stem_of(f).len() > 0,
{
    lemma_last_dot_bound(f);
}

/// Law: the resolved destination lies directly inside the scratch
/// directory: its own file name is exactly the input's file-name stem, a
/// '.', and the lower-cased requested format, with no further directory
/// between. The format token must not itself carry a separator.
pub proof fn lemma_resolved_output_in_scratch(input: Seq<char>, format: Seq<char>, scratch: Seq<
    char,
>)
    requires
        forall|i: int| 0 <= i < format.len() ==> format[i] != '/',
    ensures
        file_name_of(resolved_output(input, format, scratch)) == stem_of(file_name_of(input))
            + seq!['.'] + lower_seq(format),
{
    let f = file_name_of(input);
    let st = stem_of(f);
    let name = st + seq!['.'] + lower_seq(format);
    let p = joined(scratch, name);
    lemma_file_name_no_sep(input);
    lemma_last_dot_bound(f);
    assert(forall|c: char| c != '/' ==> #[trigger] lower_char(c) != '/');
    assert forall|i: int| 0 <= i < name.len() implies name[i] != '/' by {
        if i < st.len() {
            assert(name[i] == st[i]);
            assert(st[i] == f[i]);
            assert(f[i] != '/');
        } else if i == st.len() {
            assert(name[i] == '.');
        } else {
            let j = i - st.len() - 1;
            assert(name[i] == lower_seq(format)[j]);
            assert(lower_seq(format)[j] == lower_char(format[j]));
        }
    }
    let k = p.len() - name.len();
    if scratch.len() == 0 {
        assert(k == 0);
    } else if scratch.last() == '/' {
        assert(p[k - 1] == '/');
    } else {
        assert(p[k - 1] == '/');
    }
    lemma_file_name_suffix(p, k);
    assert(p.subrange(k, p.len() as int) =~= name);
}

/// The index at which a path's file name starts: right after the last
/// separator, 0 when there is none.
fn file_name_start(p: &str) -> (k: usize)
    ensures
        k <= p@.len(),
        file_name_of(p@) == p@.subrange(k as int, p@.len() as int),
{
    let n: usize = p.unicode_len();
    let mut k: usize = 0;
    let mut i: usize = 0;
    while i < n
        invariant
            i <= n,
            n == p@.len(),
            k <= i,
            forall|j: int| k <= j < i ==> p@[j] != '/',
            k == 0 || p@[k - 1] == '/',
        decreases n - i,
    {
        if p.get_char(i) == '/' {
            k = i + 1;
        }
        i = i + 1;
    }
    proof {
        lemma_file_name_suffix(p@, k as int);
    }
    k
}

/// The position of the last '.' of a file name, if it has one.
fn last_dot_index(f: &str) -> (r: Option<usize>)
    ensures
        match r {
            Some(j) => j < f@.len() && last_dot(f@) == j as int,
            None => last_dot(f@) == -1,
        },
{
    let n: usize = f.unicode_len();
    let mut found: Option<usize> = None;
    let mut i: usize = 0;
    while i < n
        invariant
            i <= n,
            n == f@.len(),
            match found {
                Some(j) => j < i && f@[j as int] == '.' && forall|l: int|
                    j < l < i ==> f@[l] != '.',
                None => forall|l: int| 0 <= l < i ==> f@[l] != '.',
            },
        decreases n - i,
    {
        if f.get_char(i) == '.' {
            found = Some(i);
        }
        i = i + 1;
    }
    proof {
        match found {
            Some(j) => lemma_last_dot_at(f@, j as int),
            None => lemma_no_dot(f@),
        }
    }
    found
}

/// The stem of the input path's file name, or `None` when the path has no
/// file name at all.
pub fn path_file_stem(p: &str) -> (r: Option<String>)
    ensures
        match r {
            Some(s) => file_name_of(p@).len() > 0 && s@ == stem_of(file_name_of(p@)),
            None => file_name_of(p@).len() == 0,
        },
{
    let n: usize = p.unicode_len();
    let k = file_name_start(p);
    if k == n {
        return None;
    }
    let f = p.substring_char(k, n);
    let fn_len: usize = n - k;
    proof {
        assert(f@ == file_name_of(p@));
        assert(f@.len() == fn_len);
    }
    match last_dot_index(f) {
        Some(j) if j > 0 => Some(String::from_str(f.substring_char(0, j))),
        _ => Some(String::from_str(f)),
    }
}

/// The extension of the input path's file name, if any.
pub fn path_extension(p: &str) -> (r: Option<String>)
    ensures
        match r {
            Some(e) => extension_of(file_name_of(p@)) == Some(e@),
            None => extension_of(file_name_of(p@)) is None,
        },
{
    let n: usize = p.unicode_len();
    let k = file_name_start(p);
    if k == n {
        proof {
            assert(file_name_of(p@) =~= Seq::<char>::empty());
        }
        return None;
    }
    let f = p.substring_char(k, n);
    let fn_len: usize = n - k;
    proof {
        assert(f@ == file_name_of(p@));
        assert(f@.len() == fn_len);
    }
    match last_dot_index(f) {
        Some(j) if j > 0 => Some(String::from_str(f.substring_char(j + 1, fn_len))),
        _ => None,
    }
}

/// Derives the destination path for a conversion request; fails with
/// `InvalidInput` exactly when the input path yields no file-name stem.
pub fn resolve_output_path(input_path: &str, output_format: &str, scratch_dir: &str) -> (r: Result<
    String,
    ConversionError,
>)
    ensures
        r is Err <==> file_name_of(input_path@).len() == 0,
        r matches Err(e) ==> e.kind == ErrorKind::InvalidInput,
        r matches Ok(out) ==> out@ == resolved_output(input_path@, output_format@, scratch_dir@),
{
    match path_file_stem(input_path) {
        None => Err(invalid_input()),
        Some(stem) => {
            let mut out = String::from_str(scratch_dir);
            let sn: usize = scratch_dir.unicode_len();
            if sn > 0 && scratch_dir.get_char(sn - 1) != '/' {
                push_char(&mut out, '/');
            }
            out.append(stem.as_str());
            push_char(&mut out, '.');
            let lowered = lower_ascii(output_format);
            out.append(lowered.as_str());
            proof {
                assert(out@ =~= resolved_output(input_path@, output_format@, scratch_dir@));
            }
            Ok(out)
        },
    }
}

} // verus!
