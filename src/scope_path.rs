//! Scope keys from source locations: a file path is turned into a
//! pseudo module path (`src/a/b.rs` gives `a::b`), which correlates the
//! declarations expanded in one module.
use vstd::prelude::*;
use crate::text::{chars_of, push_char, string_of};

verus! {

/// What `Path::join` gives for a base and a relative part.
pub uninterp spec fn joined_path(base: Seq<char>, part: Seq<char>) -> Seq<char>;

/// What `Path::parent` gives for a path, if it has a parent.
pub uninterp spec fn parent_path(p: Seq<char>) -> Option<Seq<char>>;

/// Relies on `Path::join`: `part` appended to `base` as a path component.
#[verifier::external_body]
fn path_join(base: &str, part: &str) -> (r: String)
    ensures
        r@ == joined_path(base@, part@),
{
    std::path::Path::new(base).join(part).to_string_lossy().into_owned()
}

/// Relies on `Path::parent`: the path without its last component.
#[verifier::external_body]
fn path_parent(p: &str) -> (r: Option<String>)
    ensures
        r is Some <==> parent_path(p@) is Some,
        r matches Some(q) ==> parent_path(p@) == Some(q@),
{
    std::path::Path::new(p).parent().map(|q| q.to_string_lossy().into_owned())
}

/// Backslashes turned into forward slashes.
pub open spec fn normalized(s: Seq<char>) -> Seq<char> {
    s.map_values(|c: char| if c == '\\' { '/' } else { c })
}

/// `p` occurs in `s` at index `i`.
pub open spec fn occurs_at(s: Seq<char>, p: Seq<char>, i: int) -> bool {
    0 <= i && i + p.len() <= s.len() && s.subrange(i, i + p.len()) == p
}

/// The first occurrence of `p` in `s` at or after `k`.
pub open spec fn find_from(s: Seq<char>, p: Seq<char>, k: int) -> Option<int>
    decreases s.len() + 1 - k,
{
    if k < 0 || k + p.len() > s.len() {
        None
    } else if occurs_at(s, p, k) {
        Some(k)
    } else {
        find_from(s, p, k + 1)
    }
}

/// The last occurrence of `p` in `s` at or before `k`.
pub open spec fn rfind_from(s: Seq<char>, p: Seq<char>, k: int) -> Option<int>
    decreases k + 1,
{
    if k < 0 {
        None
    } else if occurs_at(s, p, k) {
        Some(k)
    } else {
        rfind_from(s, p, k - 1)
    }
}

/// `s` ends with `p`.
pub open spec fn ends_with(s: Seq<char>, p: Seq<char>) -> bool {
    s.len() >= p.len() && s.subrange(s.len() - p.len(), s.len() as int) == p
}

/// `s` without the suffix `p`, where it has it.
pub open spec fn strip_suffix(s: Seq<char>, p: Seq<char>) -> Seq<char> {
    if ends_with(s, p) {
        s.subrange(0, s.len() - p.len())
    } else {
        s
    }
}

/// `s` without its leading slashes.
pub open spec fn trim_start_slashes(s: Seq<char>) -> Seq<char>
    decreases s.len(),
{
    if s.len() > 0 && s[0] == '/' {
        trim_start_slashes(s.drop_first())
    } else {
        s
    }
}

/// `s` without its trailing slashes.
pub open spec fn trim_end_slashes(s: Seq<char>) -> Seq<char>
    decreases s.len(),
{
    if s.len() > 0 && s.last() == '/' {
        trim_end_slashes(s.drop_last())
    } else {
        s
    }
}

/// `s` without leading or trailing slashes.
pub open spec fn trim_slashes(s: Seq<char>) -> Seq<char> {
    trim_end_slashes(trim_start_slashes(s))
}

/// Every slash of `s` turned into `::`.
pub open spec fn slashes_to_colons(s: Seq<char>) -> Seq<char>
    decreases s.len(),
{
    if s.len() == 0 {
        seq![]
    } else if s.last() == '/' {
        slashes_to_colons(s.drop_last()) + seq![':', ':']
    } else {
        slashes_to_colons(s.drop_last()).push(s.last())
    }
}

/// The module path of a file, given its path relative to the module root.
pub open spec fn module_of_relative(rel: Seq<char>) -> Seq<char> {
    if rel == "lib.rs"@ || rel == "main.rs"@ {
        "crate"@
    } else {
        let w = strip_suffix(rel, ".rs"@);
        if ends_with(w, "/mod"@) {
            slashes_to_colons(trim_slashes(strip_suffix(w, "/mod"@)))
        } else {
            let m = slashes_to_colons(trim_slashes(w));
            if m.len() == 0 {
                "crate"@
            } else {
                m
            }
        }
    }
}

/// The part of a normalized path after its first `/src/`, or the whole.
pub open spec fn after_first_src(n: Seq<char>) -> Seq<char> {
    match find_from(n, "/src/"@, 0) {
        Some(i) => n.subrange(i + 5, n.len() as int),
        None => n,
    }
}

/// The pseudo module path of a file path.
pub open spec fn module_of_file(p: Seq<char>) -> Seq<char> {
    module_of_relative(after_first_src(normalized(p)))
}

fn normalize(s: &str) -> (r: Vec<char>)
    ensures
        r@ == normalized(s@),
{
    let cs = chars_of(s);
    let mut r: Vec<char> = Vec::new();
    let mut i: usize = 0;
    while i < cs.len()
        invariant
            cs@ == s@,
            i <= cs@.len(),
            r@ == normalized(cs@).subrange(0, i as int),
        decreases cs@.len() - i,
    {
        let c = cs[i];
        r.push(if c == '\\' { '/' } else { c });
        i = i + 1;
        assert(r@ =~= normalized(cs@).subrange(0, i as int));
    }
    assert(r@ =~= normalized(cs@));
    r
}

fn occurs(s: &Vec<char>, p: &Vec<char>, i: usize) -> (r: bool)
    ensures
        r == occurs_at(s@, p@, i as int),
{
    let n = s.len();
    if i > n || p.len() > n - i {
        return false;
    }
    let mut j: usize = 0;
    while j < p.len()
        invariant
            n == s@.len(),
            i + p@.len() <= s@.len(),
            j <= p@.len(),
            forall|k: int| 0 <= k < j ==> s@[i + k] == p@[k],
        decreases p@.len() - j,
    {
        if s[i + j] != p[j] {
            assert(s@.subrange(i as int, i + p@.len())[j as int] != p@[j as int]);
            return false;
        }
        j = j + 1;
    }
    assert(s@.subrange(i as int, i + p@.len()) =~= p@);
    true
}

fn find_first(s: &Vec<char>, p: &Vec<char>) -> (r: Option<usize>)
    ensures
        r matches Some(i) ==> find_from(s@, p@, 0) == Some(i as int) && occurs_at(s@, p@, i as int),
        r is None ==> find_from(s@, p@, 0) is None,
{
    if p.len() > s.len() {
        return None;
    }
    let last = s.len() - p.len();
    let mut i: usize = 0;
    loop
        invariant
            last + p@.len() == s@.len(),
            i <= last,
            find_from(s@, p@, 0) == find_from(s@, p@, i as int),
        decreases last - i,
    {
        if occurs(s, p, i) {
            return Some(i);
        }
        if i == last {
            assert(find_from(s@, p@, i + 1) is None);
            return None;
        }
        i = i + 1;
    }
}

fn find_last(s: &Vec<char>, p: &Vec<char>) -> (r: Option<usize>)
    ensures
        r matches Some(i) ==> rfind_from(s@, p@, s@.len() - p@.len()) == Some(i as int) && occurs_at(
            s@,
            p@,
            i as int,
        ),
        r is None ==> rfind_from(s@, p@, s@.len() - p@.len()) is None,
{
    if p.len() > s.len() {
        assert(rfind_from(s@, p@, s@.len() - p@.len()) is None);
        return None;
    }
    let last = s.len() - p.len();
    let mut i: usize = last;
    loop
        invariant
            last + p@.len() == s@.len(),
            i <= last,
            rfind_from(s@, p@, last as int) == rfind_from(s@, p@, i as int),
        decreases i,
    {
        if occurs(s, p, i) {
            return Some(i);
        }
        if i == 0 {
            assert(rfind_from(s@, p@, -1) is None);
            return None;
        }
        i = i - 1;
    }
}

fn slice(s: &Vec<char>, a: usize, b: usize) -> (r: Vec<char>)
    requires
        a <= b <= s@.len(),
    ensures
        r@ == s@.subrange(a as int, b as int),
{
    let mut r: Vec<char> = Vec::new();
    let mut i: usize = a;
    while i < b
        invariant
            a <= i <= b,
            b <= s@.len(),
            r@ == s@.subrange(a as int, i as int),
        decreases b - i,
    {
        r.push(s[i]);
        i = i + 1;
        assert(r@ =~= s@.subrange(a as int, i as int));
    }
    r
}

fn ends_with_lit(s: &Vec<char>, p: &Vec<char>) -> (r: bool)
    ensures
        r == ends_with(s@, p@),
{
    if p.len() > s.len() {
        return false;
    }
    let r = occurs(s, p, s.len() - p.len());
    assert(r == ends_with(s@, p@));
    r
}

fn strip_suffix_lit(s: &Vec<char>, p: &Vec<char>) -> (r: Vec<char>)
    ensures
        r@ == strip_suffix(s@, p@),
{
    if ends_with_lit(s, p) {
        slice(s, 0, s.len() - p.len())
    } else {
        slice(s, 0, s.len())
    }
}

proof fn lemma_trim_start_step(s: Seq<char>, a: int)
    requires
        0 <= a < s.len(),
        s[a] == '/',
    ensures
        trim_start_slashes(s.subrange(a, s.len() as int)) == trim_start_slashes(s.subrange(a + 1, s.len() as int)),
{
    let t = s.subrange(a, s.len() as int);
    assert(t.drop_first() =~= s.subrange(a + 1, s.len() as int));
}

proof fn lemma_trim_end_step(s: Seq<char>, b: int)
    requires
        0 < b <= s.len(),
        s[b - 1] == '/',
    ensures
        trim_end_slashes(s.subrange(0, b)) == trim_end_slashes(s.subrange(0, b - 1)),
{
    let t = s.subrange(0, b);
    assert(t.drop_last() =~= s.subrange(0, b - 1));
}

fn trim(s: &Vec<char>) -> (r: Vec<char>)
    ensures
        r@ == trim_slashes(s@),
{
    let n = s.len();
    let mut a: usize = 0;
    assert(s@.subrange(0, n as int) =~= s@);
    while a < n && s[a] == '/'
        invariant
            n == s@.len(),
            a <= n,
            trim_start_slashes(s@) == trim_start_slashes(s@.subrange(a as int, n as int)),
        decreases n - a,
    {
        proof {
            lemma_trim_start_step(s@, a as int);
        }
        a = a + 1;
    }
    let t = slice(s, a, n);
    assert(trim_start_slashes(t@) == t@);
    let m = t.len();
    let mut b: usize = m;
    assert(t@.subrange(0, m as int) =~= t@);
    while b > 0 && t[b - 1] == '/'
        invariant
            m == t@.len(),
            b <= m,
            trim_end_slashes(t@) == trim_end_slashes(t@.subrange(0, b as int)),
        decreases b,
    {
        proof {
            lemma_trim_end_step(t@, b as int);
        }
        b = b - 1;
    }
    let r = slice(&t, 0, b);
    assert(trim_end_slashes(r@) == r@);
    r
}

fn colons(s: &Vec<char>) -> (r: Vec<char>)
    ensures
        r@ == slashes_to_colons(s@),
{
    let mut r: Vec<char> = Vec::new();
    let mut i: usize = 0;
    while i < s.len()
        invariant
            i <= s@.len(),
            r@ == slashes_to_colons(s@.subrange(0, i as int)),
        decreases s@.len() - i,
    {
        let ghost prev = s@.subrange(0, i as int);
        assert(s@.subrange(0, i + 1).drop_last() =~= prev);
        if s[i] == '/' {
            r.push(':');
            r.push(':');
            assert(r@ =~= slashes_to_colons(prev) + seq![':', ':']);
        } else {
            r.push(s[i]);
        }
        i = i + 1;
    }
    assert(s@.subrange(0, s@.len() as int) =~= s@);
    r
}

fn seq_eq(a: &Vec<char>, b: &Vec<char>) -> (r: bool)
    ensures
        r == (a@ == b@),
{
    if a.len() != b.len() {
        return false;
    }
    let r = occurs(a, b, 0);
    assert(a@.subrange(0, a@.len() as int) =~= a@);
    r
}

fn module_from_relative(rel: &Vec<char>) -> (r: String)
    ensures
        r@ == module_of_relative(rel@),
{
    let lib = chars_of("lib.rs");
    let main = chars_of("main.rs");
    if seq_eq(rel, &lib) || seq_eq(rel, &main) {
        return String::from_str("crate");
    }
    let w = strip_suffix_lit(rel, &chars_of(".rs"));
    let m = chars_of("/mod");
    if ends_with_lit(&w, &m) {
        let parent = strip_suffix_lit(&w, &m);
        return string_of(&colons(&trim(&parent)));
    }
    let module = colons(&trim(&w));
    if module.len() == 0 {
        String::from_str("crate")
    } else {
        string_of(&module)
    }
}

/// Converts a file path into a pseudo module path: the part after the first
/// `/src/`, without `.rs`, with `lib.rs` and `main.rs` giving `crate`, a
/// `mod.rs` standing for its directory, and `/` turned into `::`.
pub fn module_path_from_file(file_path: &str) -> (r: String)
    ensures
        r@ == module_of_file(file_path@),
{
    proof {
        reveal_strlit("/src/");
    }
    let n = normalize(file_path);
    let src = chars_of("/src/");
    let nl = n.len();
    assert(src@.len() == 5);
    let rel = match find_first(&n, &src) {
        Some(i) => {
            assert(i + 5 <= nl);
            slice(&n, i + 5, nl)
        },
        None => n,
    };
    module_from_relative(&rel)
}

/// The module root a file path points to: the directory `src` under the
/// part before its last `/src/`, or else the file's parent directory (`.`
/// where it has none).
pub open spec fn module_root_of(p: Seq<char>) -> Seq<char> {
    let n = normalized(p);
    match rfind_from(n, "/src/"@, n.len() - 5) {
        Some(i) => joined_path(n.subrange(0, i), "src"@),
        None => match parent_path(p) {
            Some(q) => q,
            None => "."@,
        },
    }
}

/// Derives the module root (usually `<crate>/src`) from a file path.
pub fn module_root_from_file(file_path: &str) -> (r: String)
    ensures
        r@ == module_root_of(file_path@),
{
    proof {
        reveal_strlit("/src/");
    }
    let n = normalize(file_path);
    let src = chars_of("/src/");
    match find_last(&n, &src) {
        Some(i) => {
            let root = string_of(&slice(&n, 0, i));
            path_join(root.as_str(), "src")
        },
        None => match path_parent(file_path) {
            Some(q) => q,
            None => String::from_str("."),
        },
    }
}

/// The pseudo module path of a file path relative to a known module root;
/// a file outside the root falls back to `module_path_from_file`.
pub open spec fn module_of_file_with_root(p: Seq<char>, root: Seq<char>) -> Seq<char> {
    let n = normalized(p);
    let prefix = normalized(root).push('/');
    if n.len() >= prefix.len() && n.subrange(0, prefix.len() as int) == prefix {
        module_of_relative(n.subrange(prefix.len() as int, n.len() as int))
    } else {
        module_of_file(p)
    }
}

/// Converts a file path into a pseudo module path using a known module root.
pub fn module_path_from_file_with_root(file_path: &str, module_root: &str) -> (r: String)
    ensures
        r@ == module_of_file_with_root(file_path@, module_root@),
{
    let n = normalize(file_path);
    let mut prefix = normalize(module_root);
    prefix.push('/');
    if prefix.len() <= n.len() && occurs(&n, &prefix, 0) {
        let rel = slice(&n, prefix.len(), n.len());
        module_from_relative(&rel)
    } else {
        module_path_from_file(file_path)
    }
}

/// The module path of a declaration nested in inline modules: `base`
/// followed by the names of the enclosing inline modules, outermost first,
/// joined by `::`; `crate` is left out when something follows it.
pub open spec fn nested_module_path(base: Seq<char>, stack: Seq<Seq<char>>) -> Seq<char> {
    if stack.len() == 0 {
        base
    } else if base == "crate"@ {
        joined_names(stack)
    } else {
        base + seq![':', ':'] + joined_names(stack)
    }
}

/// Names joined by `::`.
pub open spec fn joined_names(names: Seq<Seq<char>>) -> Seq<char>
    decreases names.len(),
{
    if names.len() == 0 {
        seq![]
    } else if names.len() == 1 {
        names[0]
    } else {
        joined_names(names.drop_last()) + seq![':', ':'] + names.last()
    }
}

/// Joins `base` with the enclosing inline modules of a declaration.
pub fn join_module_path(base: &str, stack: &Vec<String>) -> (r: String)
    ensures
        r@ == nested_module_path(base@, stack@.map_values(|s: String| s@)),
{
    let ghost names = stack@.map_values(|s: String| s@);
    if stack.len() == 0 {
        return String::from_str(base);
    }
    let mut joined = stack[0].clone();
    let mut i: usize = 1;
    assert(names.subrange(0, 1).drop_last() =~= seq![]);
    while i < stack.len()
        invariant
            names == stack@.map_values(|s: String| s@),
            1 <= i <= stack@.len(),
            joined@ == joined_names(names.subrange(0, i as int)),
        decreases stack@.len() - i,
    {
        assert(names.subrange(0, i + 1).drop_last() =~= names.subrange(0, i as int));
        joined.append("::");
        proof {
            reveal_strlit("::");
        }
        joined.append(stack[i].as_str());
        i = i + 1;
        assert(joined@ =~= joined_names(names.subrange(0, i as int)));
    }
    assert(names.subrange(0, stack@.len() as int) =~= names);
    if crate::text::str_eq(base, "crate") {
        joined
    } else {
        proof {
            reveal_strlit("::");
        }
        let r = String::from_str(base);
        let r = r.concat("::");
        let r = r.concat(joined.as_str());
        assert(r@ =~= base@ + seq![':', ':'] + joined@);
        r
    }
}

/// Every `::` of `s`, read from the left, turned into `/`.
pub open spec fn colons_to_slashes(s: Seq<char>) -> Seq<char>
    decreases s.len(),
{
    if s.len() == 0 {
        seq![]
    } else if s.len() >= 2 && s[0] == ':' && s[1] == ':' {
        seq!['/'] + colons_to_slashes(s.subrange(2, s.len() as int))
    } else {
        seq![s[0]] + colons_to_slashes(s.drop_first())
    }
}

/// `s` without the prefix `p`, where it has it.
pub open spec fn strip_prefix(s: Seq<char>, p: Seq<char>) -> Seq<char> {
    if s.len() >= p.len() && s.subrange(0, p.len() as int) == p {
        s.subrange(p.len() as int, s.len() as int)
    } else {
        s
    }
}

/// The files that may hold a module, in the order they are tried: for the
/// crate root `lib.rs`, `main.rs`, then the current file; for any other
/// module `<path>.rs`, then `<path>/mod.rs`, under the module root.
pub open spec fn module_file_candidates_of(module: Seq<char>, current: Seq<char>, root: Seq<char>) -> Seq<
    Seq<char>,
> {
    let m = strip_prefix(module, "crate::"@);
    if m == "crate"@ || m.len() == 0 {
        seq![joined_path(root, "lib.rs"@), joined_path(root, "main.rs"@), current]
    } else {
        let rel = colons_to_slashes(m);
        seq![joined_path(root, rel + ".rs"@), joined_path(joined_path(root, rel), "mod.rs"@)]
    }
}

fn to_slashes(s: &Vec<char>) -> (r: Vec<char>)
    ensures
        r@ == colons_to_slashes(s@),
{
    let n = s.len();
    let mut r: Vec<char> = Vec::new();
    let mut i: usize = 0;
    assert(s@.subrange(0, n as int) =~= s@);
    while i < n
        invariant
            n == s@.len(),
            i <= n,
            colons_to_slashes(s@) == r@ + colons_to_slashes(s@.subrange(i as int, n as int)),
        decreases n - i,
    {
        let ghost rest = s@.subrange(i as int, n as int);
        if i + 1 < n && s[i] == ':' && s[i + 1] == ':' {
            assert(rest.subrange(2, rest.len() as int) =~= s@.subrange(i + 2, n as int));
            r.push('/');
            assert(colons_to_slashes(s@) =~= r@ + colons_to_slashes(s@.subrange(i + 2, n as int)));
            i = i + 2;
        } else {
            assert(rest.drop_first() =~= s@.subrange(i + 1, n as int));
            r.push(s[i]);
            assert(colons_to_slashes(s@) =~= r@ + colons_to_slashes(s@.subrange(i + 1, n as int)));
            i = i + 1;
        }
    }
    assert(colons_to_slashes(s@.subrange(n as int, n as int)) =~= seq![]);
    assert(r@ =~= r@ + seq![]);
    r
}

/// The files that may hold `module_path`, in the order in which the first
/// existing one is taken.
pub fn module_file_candidates(module: &str, current_file: &str, module_root: &str) -> (r: Vec<String>)
    ensures
        r@.map_values(|s: String| s@) == module_file_candidates_of(module@, current_file@, module_root@),
{
    let full = chars_of(module);
    let prefix = chars_of("crate::");
    let m = if prefix.len() <= full.len() && occurs(&full, &prefix, 0) {
        slice(&full, prefix.len(), full.len())
    } else {
        let whole = slice(&full, 0, full.len());
        assert(whole@ =~= full@);
        whole
    };
    assert(m@ == strip_prefix(module@, "crate::"@));
    let ghost expected = module_file_candidates_of(module@, current_file@, module_root@);
    let crate_word = chars_of("crate");
    let mut r: Vec<String> = Vec::new();
    if seq_eq(&m, &crate_word) || m.len() == 0 {
        r.push(path_join(module_root, "lib.rs"));
        r.push(path_join(module_root, "main.rs"));
        r.push(String::from_str(current_file));
        assert(r@.map_values(|s: String| s@) =~= expected);
    } else {
        let rel = string_of(&to_slashes(&m));
        let file = rel.clone().concat(".rs");
        r.push(path_join(module_root, file.as_str()));
        let dir = path_join(module_root, rel.as_str());
        r.push(path_join(dir.as_str(), "mod.rs"));
        assert(r@.map_values(|s: String| s@) =~= expected);
    }
    r
}

/// An inline module of a source file: its name, the lines its text spans,
/// and the inline modules declared in it.
pub struct ModuleSpan {
    pub name: String,
    pub start_line: usize,
    pub end_line: usize,
    pub children: Vec<ModuleSpan>,
}

/// The views of a list of strings.
pub open spec fn names_view(v: Seq<String>) -> Seq<Seq<char>> {
    v.map_values(|s: String| s@)
}

/// The module's text spans `line`.
pub open spec fn spans_line(m: ModuleSpan, line: int) -> bool {
    m.start_line <= line <= m.end_line
}

/// The deepest chain of inline modules around `line`: modules are visited
/// in order, descending only into those that span the line; each visited
/// chain replaces `best` when it is strictly longer, so the first deepest
/// chain wins.
pub open spec fn deepest_chain(
    items: Seq<ModuleSpan>,
    line: int,
    stack: Seq<Seq<char>>,
    best: Seq<Seq<char>>,
) -> Seq<Seq<char>>
    decreases items,
    via deepest_chain_decreases
{
    if items.len() == 0 {
        best
    } else {
        let before = deepest_chain(items.drop_last(), line, stack, best);
        let m = items.last();
        if spans_line(m, line) {
            let pushed = stack.push(m.name@);
            let better = if pushed.len() > before.len() {
                pushed
            } else {
                before
            };
            deepest_chain(m.children@, line, pushed, better)
        } else {
            before
        }
    }
}

#[via_fn]
proof fn deepest_chain_decreases(
    items: Seq<ModuleSpan>,
    line: int,
    stack: Seq<Seq<char>>,
    best: Seq<Seq<char>>,
) {
    broadcast use vstd::seq::axiom_seq_subrange_decreases, vstd::seq::axiom_seq_index_decreases;
    broadcast use vstd::std_specs::vec::axiom_vec_decreases_to_view;

    if items.len() > 0 {
        assert(decreases_to!(items => items.subrange(0, items.len() - 1)));
        let m = items[items.len() - 1];
        assert(decreases_to!(items => m));
        assert(decreases_to!(m => m.children));
        assert(decreases_to!(m.children => m.children@));
        assert(decreases_to!(items => m.children@));
    }
}

fn copy_names(v: &Vec<String>) -> (r: Vec<String>)
    ensures
        r@ == v@,
{
    let r = v.clone();
    assert(r@ =~= v@);
    r
}

/// Visits `items` as `deepest_chain` says, with `stack` the chain of the
/// modules around them; `stack` is left as it was.
fn visit_items(items: &Vec<ModuleSpan>, line: usize, stack: &mut Vec<String>, best: &mut Vec<String>)
    ensures
        final(stack)@ == old(stack)@,
        names_view(final(best)@) == deepest_chain(items@, line as int, names_view(old(stack)@), names_view(old(best)@)),
    decreases items,
{
    broadcast use vstd::std_specs::vec::axiom_vec_index_decreases;

    let ghost stack0 = stack@;
    let ghost best0 = best@;
    let mut i: usize = 0;
    while i < items.len()
        invariant
            i <= items@.len(),
            stack@ == stack0,
            names_view(best@) == deepest_chain(items@.subrange(0, i as int), line as int, names_view(stack0), names_view(best0)),
        decreases items@.len() - i,
    {
        let m = &items[i];
        proof {
            assert(items@.subrange(0, i + 1).drop_last() =~= items@.subrange(0, i as int));
            assert(items@.subrange(0, i + 1).last() == items@[i as int]);
        }
        if m.start_line <= line && line <= m.end_line {
            let ghost before = best@;
            stack.push(m.name.clone());
            assert(names_view(stack@) =~= names_view(stack0).push(m.name@));
            if stack.len() > best.len() {
                *best = copy_names(stack);
            }
            proof {
                assert(decreases_to!(items => items[i as int]));
            }
            visit_items(&m.children, line, stack, best);
            stack.pop();
            assert(stack@ =~= stack0);
        }
        i = i + 1;
    }
    assert(items@.subrange(0, items@.len() as int) =~= items@);
}

/// The module path of a declaration at `line` of a file whose pseudo module
/// path is `base` and whose inline modules are `items`: `base` extended by
/// the deepest chain of inline modules spanning the line.
pub fn module_path_at_line(base: &str, items: &Vec<ModuleSpan>, line: usize) -> (r: String)
    ensures
        r@ == nested_module_path(base@, deepest_chain(items@, line as int, seq![], seq![])),
{
    let mut stack: Vec<String> = Vec::new();
    let mut best: Vec<String> = Vec::new();
    assert(names_view(stack@) =~= seq![]);
    visit_items(items, line, &mut stack, &mut best);
    join_module_path(base, &best)
}

} // verus!
