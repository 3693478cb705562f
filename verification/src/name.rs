//! Name derivation: the default name of a resolved selection and the
//! display name of a transfer's destination file.

use vstd::prelude::*;
use crate::arch::Arch;
use crate::text::push_char;

verus! {

/// How one character of an architecture label is normalized: a space
/// becomes an underscore, an ASCII capital letter is lowered, an ASCII
/// lowercase letter, digit or underscore is kept, and anything else is
/// stripped.
pub open spec fn normalize_char(c: char) -> Option<char> {
    if c == ' ' {
        Some('_')
    } else if 'A' as u32 <= c as u32 && c as u32 <= 'Z' as u32 {
        Some((((c as u32) + 32) as u8) as char)
    } else if ('a' as u32 <= c as u32 && c as u32 <= 'z' as u32) || ('0' as u32 <= c as u32
        && c as u32 <= '9' as u32) || c == '_' {
        Some(c)
    } else {
        None
    }
}

/// The normalized form of an architecture label: spaces become
/// underscores, letters are lower-cased, and every character that is
/// not alphanumeric or an underscore is stripped.
pub open spec fn spec_normalize_label(s: Seq<char>) -> Seq<char>
    decreases s.len(),
{
    if s.len() == 0 {
        Seq::empty()
    } else {
        let rest = spec_normalize_label(s.drop_last());
        match normalize_char(s.last()) {
            Some(c) => rest.push(c),
            None => rest,
        }
    }
}

/// A character admissible in a normalized label: an ASCII lowercase
/// letter, an ASCII digit, or an underscore.
pub open spec fn is_name_char(c: char) -> bool {
    ('a' as u32 <= c as u32 && c as u32 <= 'z' as u32) || ('0' as u32 <= c as u32 && c as u32
        <= '9' as u32) || c == '_'
}

/// Normalization is total cleanup: every character of a normalized
/// label is an ASCII lowercase letter, a digit or an underscore — in
/// particular no space, no capital letter and no other punctuation
/// survives.
pub proof fn lemma_normalized_label_chars(s: Seq<char>)
    ensures
        forall|i: int|
            0 <= i < spec_normalize_label(s).len() ==> is_name_char(spec_normalize_label(s)[i]),
    decreases s.len(),
{
    if s.len() == 0 {
    } else {
        lemma_normalized_label_chars(s.drop_last());
        let rest = spec_normalize_label(s.drop_last());
        let whole = spec_normalize_label(s);
        match normalize_char(s.last()) {
            Some(c) => {
                assert(is_name_char(c));
                assert forall|i: int| 0 <= i < whole.len() implies is_name_char(whole[i]) by {
                    if i < rest.len() {
                        assert(whole[i] == rest[i]);
                    } else {
                        assert(whole[i] == c);
                    }
                }
            },
            None => {
                assert(whole =~= rest);
            },
        }
    }
}

fn normalize_char_exec(c: char) -> (r: Option<char>)
    ensures
        r == normalize_char(c),
{
    let u = c as u32;
    if c == ' ' {
        Some('_')
    } else if 'A' as u32 <= u && u <= 'Z' as u32 {
        Some(((u + 32) as u8) as char)
    } else if ('a' as u32 <= u && u <= 'z' as u32) || ('0' as u32 <= u && u <= '9' as u32) || c
        == '_' {
        Some(c)
    } else {
        None
    }
}

/// The normalized form of a label; see [`spec_normalize_label`].
pub fn normalize_label(label: &str) -> (r: String)
    ensures
        r@ == spec_normalize_label(label@),
{
    let n = label.unicode_len();
    let mut out = String::new();
    let mut i: usize = 0;
    while i < n
        invariant
            i <= n,
            n == label@.len(),
            out@ == spec_normalize_label(label@.take(i as int)),
        decreases n - i,
    {
        let c = label.get_char(i);
        match normalize_char_exec(c) {
            Some(d) => push_char(&mut out, d),
            None => {},
        }
        proof {
            assert(label@.take(i + 1).drop_last() =~= label@.take(i as int));
            assert(label@.take(i + 1).last() == label@[i as int]);
        }
        i += 1;
    }
    proof {
        assert(label@.take(n as int) =~= label@);
    }
    out
}

/// The derived default name: OS identifier, release, edition when
/// present, and the normalized architecture label, joined by dashes in
/// that fixed order.
pub open spec fn spec_default_vm_name(
    os: Seq<char>,
    release: Seq<char>,
    edition: Option<Seq<char>>,
    arch: Arch,
) -> Seq<char> {
    let base = os + seq!['-'] + release;
    let with_edition = match edition {
        Some(e) => base + seq!['-'] + e,
        None => base,
    };
    with_edition + seq!['-'] + spec_normalize_label(arch.spec_label())
}

/// Contents of an optional borrowed string.
pub open spec fn opt_str_view(s: Option<&str>) -> Option<Seq<char>> {
    match s {
        Some(e) => Some(e@),
        None => None,
    }
}

/// Derives the default name of a selection; see
/// [`spec_default_vm_name`]. Deterministic and pure: the result is a
/// function of the four arguments alone.
pub fn default_vm_name(os_name: &str, release: &str, edition: Option<&str>, arch: Arch) -> (r:
    String)
    ensures
        r@ == spec_default_vm_name(os_name@, release@, opt_str_view(edition), arch),
{
    let mut vm_name = os_name.to_owned();
    push_char(&mut vm_name, '-');
    vm_name.append(release);
    if let Some(e) = edition {
        push_char(&mut vm_name, '-');
        vm_name.append(e);
    }
    push_char(&mut vm_name, '-');
    let label = arch.label();
    let normalized = normalize_label(label.as_str());
    vm_name.append(normalized.as_str());
    proof {
        assert(vm_name@ =~= spec_default_vm_name(os_name@, release@, opt_str_view(edition), arch));
    }
    vm_name
}

/// The characters of a path after its last slash; empty when the path
/// is empty or ends in a slash.
pub open spec fn after_last_slash(s: Seq<char>) -> Seq<char>
    decreases s.len(),
{
    if s.len() == 0 {
        Seq::empty()
    } else if s.last() == '/' {
        Seq::empty()
    } else {
        after_last_slash(s.drop_last()).push(s.last())
    }
}

/// The display name of a destination file: its final path segment, or
/// the whole path when that segment is empty.
pub open spec fn spec_file_display_name(path: Seq<char>) -> Seq<char> {
    if after_last_slash(path).len() == 0 {
        path
    } else {
        after_last_slash(path)
    }
}

/// Display name of the file a path points at; see
/// [`spec_file_display_name`].
pub fn file_display_name(path: &str) -> (r: String)
    ensures
        r@ == spec_file_display_name(path@),
{
    let n = path.unicode_len();
    let mut out = String::new();
    let mut i: usize = 0;
    while i < n
        invariant
            i <= n,
            n == path@.len(),
            out@ == after_last_slash(path@.take(i as int)),
        decreases n - i,
    {
        let c = path.get_char(i);
        if c == '/' {
            out = String::new();
        } else {
            push_char(&mut out, c);
        }
        proof {
            assert(path@.take(i + 1).drop_last() =~= path@.take(i as int));
            assert(path@.take(i + 1).last() == path@[i as int]);
        }
        i += 1;
    }
    proof {
        assert(path@.take(n as int) =~= path@);
    }
    if out.as_str().is_empty() {
        path.to_owned()
    } else {
        out
    }
}

} // verus!
