use sha1::Digest;
use vstd::prelude::*;
use vstd::utf8::encode_utf8;

use crate::text::{
    ascii_lower, file_name, is_ascii_alnum, join_path, join_relative, path_file_name, push_char,
    strip_both, strip_pred, strip_str, to_ascii_lowercase, ascii_alphanumeric, trim, trim_ws,
};

verus! {

pub const PROJECT_MEMORY_FILENAME: &'static str = "memory.md";

pub const PROJECTS_DIR_NAME: &'static str = "projects";

pub const MEMORIES_DIR_NAME: &'static str = "memories";

pub const PROJECT_ID_HASH_BYTES: usize = 6;

/// Repository-scoped memory text, with the project it belongs to.
#[derive(Debug, Clone, PartialEq, Eq)]
pub struct ProjectMemory {
    pub project_id: String,
    pub git_root: String,
    pub text: String,
}

/// The slug built so far from `s`, and whether it ends in a separator that
/// stands for a run of other characters.
pub open spec fn slug_state(s: Seq<char>) -> (Seq<char>, bool)
    decreases s.len(),
{
    if s.len() == 0 {
        (Seq::empty(), false)
    } else {
        let (out, last_sep) = slug_state(s.drop_last());
        let c = s.last();
        if is_ascii_alnum(c) {
            (out.push(ascii_lower(c)), false)
        } else if !last_sep {
            (out.push('-'), true)
        } else {
            (out, true)
        }
    }
}

/// ASCII letters and digits lowered, each run of other characters turned
/// into one `-`, and `-` stripped from both ends.
pub open spec fn spec_sanitize_slug(s: Seq<char>) -> Seq<char> {
    strip_both(slug_state(s).0, strip_pred(Some('-')))
}

/// Turns a directory name into a slug for a project id.
pub fn sanitize_slug(input: &str) -> (r: String)
    ensures
        r@ == spec_sanitize_slug(input@),
{
    let n = input.unicode_len();
    let mut slug = String::new();
    let mut last_was_separator = false;
    let mut i: usize = 0;
    while i < n
        invariant
            n == input@.len(),
            0 <= i <= n,
            slug_state(input@.take(i as int)) == (slug@, last_was_separator),
        decreases n - i,
    {
        let ch = input.get_char(i);
        assert(input@.take(i + 1).drop_last() =~= input@.take(i as int));
        if ascii_alphanumeric(ch) {
            push_char(&mut slug, to_ascii_lowercase(ch));
            last_was_separator = false;
        } else if !last_was_separator {
            push_char(&mut slug, '-');
            last_was_separator = true;
        }
        i = i + 1;
    }
    assert(input@.take(n as int) =~= input@);
    strip_str(slug.as_str(), Some('-'))
}

/// The lower-case hexadecimal digit for a value below 16.
pub open spec fn hex_digit(n: u8) -> char {
    if n < 10 {
        (('0' as u8) + n) as char
    } else {
        (('a' as u8) + n - 10) as char
    }
}

/// Two lower-case hexadecimal digits per byte, as `{:02x}` prints them.
pub open spec fn hex_lower(bytes: Seq<u8>) -> Seq<char>
    decreases bytes.len(),
{
    if bytes.len() == 0 {
        Seq::empty()
    } else {
        let b = bytes.last();
        hex_lower(bytes.drop_last()) + seq![hex_digit(b / 16), hex_digit(b % 16)]
    }
}

/// A character among `0`-`9` and `a`-`f`.
pub open spec fn is_lower_hex_digit(c: char) -> bool {
    ('0' <= c && c <= '9') || ('a' <= c && c <= 'f')
}

/// Hex text has two digits per byte, each a lower-case hexadecimal digit.
pub proof fn lemma_hex_lower_shape(bytes: Seq<u8>)
    ensures
        hex_lower(bytes).len() == 2 * bytes.len(),
        forall|i: int| 0 <= i < hex_lower(bytes).len() ==> is_lower_hex_digit(#[trigger] hex_lower(bytes)[i]),
    decreases bytes.len(),
{
    if bytes.len() > 0 {
        lemma_hex_lower_shape(bytes.drop_last());
        let b = bytes.last();
        assert(is_lower_hex_digit(hex_digit(b / 16)));
        assert(is_lower_hex_digit(hex_digit(b % 16)));
    }
}

fn hex_digit_char(n: u8) -> (c: char)
    requires
        n < 16,
    ensures
        c == hex_digit(n),
{
    if n < 10 {
        let b: u8 = 48u8 + n;
        b as char
    } else {
        let b: u8 = 97u8 + n - 10;
        b as char
    }
}

/// The first `n` bytes as lower-case hexadecimal text.
pub fn hex_encode_prefix(bytes: &[u8], n: usize) -> (r: String)
    requires
        n <= bytes@.len(),
    ensures
        r@ == hex_lower(bytes@.take(n as int)),
{
    let mut out = String::new();
    let mut i: usize = 0;
    while i < n
        invariant
            n <= bytes@.len(),
            0 <= i <= n,
            out@ == hex_lower(bytes@.take(i as int)),
        decreases n - i,
    {
        let b = bytes[i];
        assert(bytes@.take(i + 1).drop_last() =~= bytes@.take(i as int));
        push_char(&mut out, hex_digit_char(b / 16));
        push_char(&mut out, hex_digit_char(b % 16));
        i = i + 1;
    }
    out
}

/// The SHA-1 digest of `data`.
pub uninterp spec fn sha1_of(data: Seq<u8>) -> Seq<u8>;

/// `sha1::Sha1::digest`: the 20-byte SHA-1 digest of `data`.
#[verifier::external_body]
fn sha1_digest(data: &[u8]) -> (r: Vec<u8>)
    ensures
        r@ == sha1_of(data@),
        r@.len() == 20,
{
    sha1::Sha1::digest(data).to_vec()
}


/// `\` turned into `/`, so that a root reads the same on every platform.
pub open spec fn forward_slashes(s: Seq<char>) -> Seq<char> {
    s.map_values(|c: char| if c == '\\' { '/' } else { c })
}

/// The text hashed into a project id: the root with forward slashes, then,
/// when the origin URL is not blank, a newline and the trimmed URL.
pub open spec fn project_identity(git_root: Seq<char>, origin_url: Option<Seq<char>>) -> Seq<char> {
    let base = forward_slashes(git_root);
    match origin_url {
        Some(u) => if trim_ws(u).len() > 0 {
            base + seq!['\n'] + trim_ws(u)
        } else {
            base
        },
        None => base,
    }
}

/// The slug part of a project id: the sanitized last component of the root,
/// or `project` when that is missing or sanitizes to nothing.
pub open spec fn project_slug(git_root: Seq<char>) -> Seq<char> {
    match path_file_name(git_root) {
        Some(name) => if spec_sanitize_slug(name).len() > 0 {
            spec_sanitize_slug(name)
        } else {
            "project"@
        },
        None => "project"@,
    }
}

/// `slug-hex`, where hex is the first six bytes of the SHA-1 of the identity.
pub open spec fn spec_project_id(git_root: Seq<char>, origin_url: Option<Seq<char>>) -> Seq<char> {
    project_slug(git_root) + seq!['-'] + hex_lower(
        sha1_of(encode_utf8(project_identity(git_root, origin_url))).take(
            PROJECT_ID_HASH_BYTES as int,
        ),
    )
}

fn replace_backslashes(s: &str) -> (r: String)
    ensures
        r@ == forward_slashes(s@),
{
    let n = s.unicode_len();
    let mut out = String::new();
    let mut i: usize = 0;
    while i < n
        invariant
            n == s@.len(),
            0 <= i <= n,
            out@ =~= forward_slashes(s@.take(i as int)),
        decreases n - i,
    {
        let c = s.get_char(i);
        let d = if c == '\\' { '/' } else { c };
        push_char(&mut out, d);
        assert(s@.take(i + 1) =~= s@.take(i as int).push(c));
        i = i + 1;
    }
    assert(s@.take(n as int) =~= s@);
    out
}

/// The id under which a repository's memory is filed: the slug, `-`, and
/// exactly twelve lower-case hexadecimal digits.
pub fn build_project_id(git_root: &str, origin_url: Option<&str>) -> (r: String)
    ensures
        r@ == spec_project_id(git_root@, crate::home_dir::opt_str_view(origin_url)),
        r@.len() == project_slug(git_root@).len() + 1 + 2 * PROJECT_ID_HASH_BYTES,
        r@.take(project_slug(git_root@).len() as int) == project_slug(git_root@),
        r@[project_slug(git_root@).len() as int] == '-',
        forall|i: int|
            project_slug(git_root@).len() < i < r@.len() ==> is_lower_hex_digit(#[trigger] r@[i]),
{
    let repo_slug = match file_name(git_root) {
        Some(name) => {
            let slug = sanitize_slug(name.as_str());
            if slug.as_str().unicode_len() > 0 {
                slug
            } else {
                String::from_str("project")
            }
        },
        None => String::from_str("project"),
    };
    let mut identity = replace_backslashes(git_root);
    if let Some(url) = origin_url {
        let trimmed = trim(url);
        if trimmed.as_str().unicode_len() > 0 {
            push_char(&mut identity, '\n');
            identity.append(trimmed.as_str());
            assert(identity@ =~= forward_slashes(git_root@) + seq!['\n'] + trim_ws(url@));
        }
    }
    assert(identity@ == project_identity(git_root@, crate::home_dir::opt_str_view(origin_url)));
    assert(repo_slug@ == project_slug(git_root@));
    let digest = sha1_digest(identity.as_str().as_bytes());
    let suffix = hex_encode_prefix(digest.as_slice(), PROJECT_ID_HASH_BYTES);
    let mut id = repo_slug;
    push_char(&mut id, '-');
    id.append(suffix.as_str());
    assert(id@ =~= project_slug(git_root@) + seq!['-'] + suffix@);
    proof {
        let taken = digest@.take(PROJECT_ID_HASH_BYTES as int);
        lemma_hex_lower_shape(taken);
        let k = project_slug(git_root@).len() as int;
        assert(id@.take(k) =~= project_slug(git_root@));
        assert forall|i: int| k < i < id@.len() implies is_lower_hex_digit(#[trigger] id@[i]) by {
            assert(id@[i] == suffix@[i - k - 1]);
        }
    }
    id
}

/// `<codex_home>/memories/projects`, where per-project memory lives.
pub fn projects_memory_root(codex_home: &str) -> (r: String)
    ensures
        r@ == join_relative(join_relative(codex_home@, MEMORIES_DIR_NAME@), PROJECTS_DIR_NAME@),
{
    let memories = join_path(codex_home, MEMORIES_DIR_NAME);
    join_path(memories.as_str(), PROJECTS_DIR_NAME)
}

/// `<codex_home>/memories/projects/<project_id>/memory.md`.
pub fn project_memory_path(codex_home: &str, project_id: &str) -> (r: String)
    ensures
        r@ == join_relative(
            join_relative(
                join_relative(join_relative(codex_home@, MEMORIES_DIR_NAME@), PROJECTS_DIR_NAME@),
                project_id@,
            ),
            PROJECT_MEMORY_FILENAME@,
        ),
{
    let root = projects_memory_root(codex_home);
    let dir = join_path(root.as_str(), project_id);
    join_path(dir.as_str(), PROJECT_MEMORY_FILENAME)
}

/// The memory file's contents with surrounding whitespace removed, which is
/// what the length limit is then applied to.
pub fn memory_text_candidate(raw: &str) -> (r: String)
    ensures
        r@ == trim_ws(raw@),
{
    trim(raw)
}

/// The project memory for a memory text that has been trimmed and limited;
/// an empty text means there is no memory.
pub fn project_memory_from_text(project_id: String, git_root: String, text: String) -> (r: Option<
    ProjectMemory,
>)
    ensures
        text@.len() == 0 <==> r is None,
        r matches Some(m) ==> m.project_id == project_id && m.git_root == git_root && m.text
            == text,
{
    if text.as_str().unicode_len() == 0 {
        None
    } else {
        Some(ProjectMemory { project_id, git_root, text })
    }
}

impl ProjectMemory {
    /// The body of the memory message:
    /// `<project_id>..</project_id>`, `<git_root>..</git_root>` and the text,
    /// one per line.
    pub fn serialize_body(&self) -> (r: String)
        ensures
            r@ == "<project_id>"@ + self.project_id@ + "</project_id>\n<git_root>"@
                + self.git_root@ + "</git_root>\n"@ + self.text@,
    {
        let mut out = String::from_str("<project_id>");
        out.append(self.project_id.as_str());
        out.append("</project_id>\n<git_root>");
        out.append(self.git_root.as_str());
        out.append("</git_root>\n");
        out.append(self.text.as_str());
        out
    }
}


/// The characters a slug may hold.
pub open spec fn slug_char(c: char) -> bool {
    ('a' <= c && c <= 'z') || ('0' <= c && c <= '9') || c == '-'
}

/// A slug: lower-case letters, digits and single dashes, with no dash at
/// either end.
pub open spec fn well_formed_slug(s: Seq<char>) -> bool {
    &&& forall|i: int| 0 <= i < s.len() ==> slug_char(#[trigger] s[i])
    &&& forall|i: int| 0 <= i < s.len() - 1 ==> !(#[trigger] s[i] == '-' && s[i + 1] == '-')
    &&& s.len() > 0 ==> s[0] != '-' && s.last() != '-'
}

proof fn lemma_ascii_lower_alnum(c: char)
    requires
        is_ascii_alnum(c),
    ensures
        slug_char(ascii_lower(c)),
        ascii_lower(c) != '-',
{
    if 'A' <= c && c <= 'Z' {
        let u = (c as u32) + 32;
        assert(97 <= u <= 122);
        assert((u as char) as u32 == u) by {
            assert(u < 0xD800);
        }
    }
}

proof fn lemma_slug_state_shape(s: Seq<char>)
    ensures
        ({
            let (out, sep) = slug_state(s);
            &&& forall|i: int| 0 <= i < out.len() ==> slug_char(#[trigger] out[i])
            &&& forall|i: int|
                0 <= i < out.len() - 1 ==> !(#[trigger] out[i] == '-' && out[i + 1] == '-')
            &&& sep == (out.len() > 0 && out.last() == '-')
        }),
    decreases s.len(),
{
    if s.len() > 0 {
        lemma_slug_state_shape(s.drop_last());
        let (out, sep) = slug_state(s.drop_last());
        let c = s.last();
        if is_ascii_alnum(c) {
            lemma_ascii_lower_alnum(c);
            let o2 = out.push(ascii_lower(c));
            assert forall|i: int| 0 <= i < o2.len() implies slug_char(#[trigger] o2[i]) by {
                if i < out.len() {
                    assert(o2[i] == out[i]);
                }
            }
            assert forall|i: int| 0 <= i < o2.len() - 1 implies !(#[trigger] o2[i] == '-' && o2[i
                + 1] == '-') by {
                if i + 1 < out.len() {
                    assert(o2[i] == out[i] && o2[i + 1] == out[i + 1]);
                }
            }
        } else if !sep {
            let o2 = out.push('-');
            assert forall|i: int| 0 <= i < o2.len() implies slug_char(#[trigger] o2[i]) by {
                if i < out.len() {
                    assert(o2[i] == out[i]);
                }
            }
            assert forall|i: int| 0 <= i < o2.len() - 1 implies !(#[trigger] o2[i] == '-' && o2[i
                + 1] == '-') by {
                if i + 1 < out.len() {
                    assert(o2[i] == out[i] && o2[i + 1] == out[i + 1]);
                } else {
                    assert(o2[i] == out.last());
                }
            }
        }
    }
}

/// A sanitized slug is well formed: only lower-case ASCII letters, digits and
/// `-`, never two dashes in a row, and no dash at either end.
pub proof fn law_sanitized_slug_is_well_formed(input: Seq<char>)
    ensures
        well_formed_slug(spec_sanitize_slug(input)),
{
    lemma_slug_state_shape(input);
    let out = slug_state(input).0;
    let p = strip_pred(Some('-'));
    crate::text::lemma_strip_start_shape(out, p);
    let a = choose|k: int|
        0 <= k <= out.len() && #[trigger] crate::text::strip_start(out, p) == out.skip(k) && (k
            == out.len() || !p(out[k]));
    let t = out.skip(a);
    crate::text::lemma_strip_end_shape(t, p);
    let b = choose|k: int|
        0 <= k <= t.len() && #[trigger] crate::text::strip_end(t, p) == t.take(k) && (k == 0 || !p(
            t[k - 1],
        ));
    let r = t.take(b);
    assert(spec_sanitize_slug(input) == r);
    assert forall|i: int| 0 <= i < r.len() implies slug_char(#[trigger] r[i]) by {
        assert(r[i] == out[a + i]);
    }
    assert forall|i: int| 0 <= i < r.len() - 1 implies !(#[trigger] r[i] == '-' && r[i + 1] == '-') by {
        assert(r[i] == out[a + i] && r[i + 1] == out[a + i + 1]);
    }
    if r.len() > 0 {
        assert(r[0] == out[a]);
        assert(r.last() == t[b - 1]);
    }
}

} // verus!
