//! Shortening of long file paths for display.
use vstd::prelude::*;

verus! {

/// The components that `std::path::Path::components` yields for a path, each
/// as text: the root, `.`, `..` and the names between separators.
pub uninterp spec fn components_of(p: Seq<char>) -> Seq<Seq<char>>;

/// The path `part` appended to the path `base`, as `std::path::Path::join`
/// does on Unix: an absolute `part` replaces `base`; otherwise a separator
/// goes between the two unless `base` is empty or already ends in one.
pub open spec fn joined(base: Seq<char>, part: Seq<char>) -> Seq<char> {
    if part.len() > 0 && part[0] == '/' {
        part
    } else if base.len() == 0 || base.last() == '/' {
        base + part
    } else {
        base + seq!['/'] + part
    }
}

/// Relies on `std::path::Path::components`: the components of `p` in order.
#[verifier::external_body]
fn path_components(p: &str) -> (r: Vec<String>)
    ensures
        r@.map_values(|c: String| c@) == components_of(p@),
{
    std::path::Path::new(p).components().map(|c| c.as_os_str().to_string_lossy().into_owned()).collect()
}

/// Relies on `std::path::Path::join`: `part` appended to `base`.
#[verifier::external_body]
fn path_join(base: &str, part: &str) -> (r: String)
    ensures
        r@ == joined(base@, part@),
{
    std::path::Path::new(base).join(part).to_string_lossy().into_owned()
}

/// How component `i` of `comps` is shown: the last two components and the
/// short ones as they are, any other by its first character and a dot.
pub open spec fn shown_component(comps: Seq<Seq<char>>, i: int) -> Seq<char> {
    if comps.len() - i <= 2 || comps[i].len() <= 2 {
        comps[i]
    } else {
        seq![comps[i][0], '.']
    }
}

/// The first `n` shown components joined into a path.
pub open spec fn joined_prefix(comps: Seq<Seq<char>>, n: nat) -> Seq<char>
    decreases n,
{
    if n == 0 {
        Seq::empty()
    } else {
        joined(joined_prefix(comps, (n - 1) as nat), shown_component(comps, n - 1))
    }
}

/// A path shortened for display: unchanged when it has at most `max_chars`
/// characters or at most two components, else rebuilt from its shown
/// components.
pub open spec fn shortened(p: Seq<char>, max_chars: nat) -> Seq<char> {
    let comps = components_of(p);
    if p.len() <= max_chars || comps.len() <= 2 {
        p
    } else {
        joined_prefix(comps, comps.len())
    }
}

/// Rebuilds a path from its components `comps` for display: every
/// component but the last two that is longer than two characters is cut to
/// its first character and a dot.
pub fn shorten_components(comps: &Vec<String>) -> (r: String)
    ensures
        r@ == joined_prefix(comps@.map_values(|c: String| c@), comps@.len()),
{
    let count = comps.len();
    let ghost cv = comps@.map_values(|c: String| c@);
    let mut acc = String::new();
    let mut i: usize = 0;
    while i < count
        invariant
            count == comps@.len(),
            cv == comps@.map_values(|c: String| c@),
            i <= count,
            acc@ == joined_prefix(cv, i as nat),
        decreases count - i,
    {
        let c = comps[i].as_str();
        assert(c@ == cv[i as int]);
        let n = c.unicode_len();
        let shown = if count - i <= 2 || n <= 2 {
            String::from_str(c)
        } else {
            let mut a = String::from_str(c.substring_char(0, 1));
            a.append(".");
            proof {
                reveal_strlit(".");
            }
            assert(a@ =~= seq![cv[i as int][0], '.']);
            a
        };
        acc = path_join(acc.as_str(), shown.as_str());
        i = i + 1;
    }
    acc
}

/// Shortens `path` for display: every component but the last two that is
/// longer than two characters is cut to its first character and a dot.
/// Paths of at most `max_chars` characters, or of at most two components,
/// are left as they are.
pub fn shorten_path(path: &str, max_chars: usize) -> (r: String)
    ensures
        r@ == shortened(path@, max_chars as nat),
{
    let comps = path_components(path);
    if path.unicode_len() <= max_chars || comps.len() <= 2 {
        return String::from_str(path);
    }
    shorten_components(&comps)
}

} // verus!
