//! Paths as lists of components.
//!
//! The library never asks the file system anything, and it never takes a
//! path apart by looking for separators: the program hands it the
//! components, and gets components back. What is proved here is proved of
//! those lists, on every platform alike.

use crate::os::Host;
use crate::text::{
    chars_of, debug_str, debug_text, has_prefix, join, split, split_str, strip_prefix,
};
use vstd::prelude::*;
use vstd::string::*;

verus! {

/// One component of a path.
#[derive(Debug, PartialEq, Eq)]
pub enum Part {
    /// A Windows prefix, such as a drive or a share.
    Prefix(String),
    /// The root directory.
    Root,
    /// A name in a directory; `.` and `..` count as names.
    Name(String),
}

/// A `Part` with its text as a sequence of characters.
pub enum PartView {
    Prefix(Seq<char>),
    Root,
    Name(Seq<char>),
}

impl View for Part {
    type V = PartView;

    open spec fn view(&self) -> PartView {
        match self {
            Part::Prefix(p) => PartView::Prefix(p@),
            Part::Root => PartView::Root,
            Part::Name(n) => PartView::Name(n@),
        }
    }
}

impl Part {
    pub fn same(&self, other: &Part) -> (r: bool)
        ensures
            r == (self@ == other@),
    {
        match (self, other) {
            (Part::Prefix(a), Part::Prefix(b)) => a.as_str().eq(b.as_str()),
            (Part::Root, Part::Root) => true,
            (Part::Name(a), Part::Name(b)) => a.as_str().eq(b.as_str()),
            _ => false,
        }
    }

    pub fn copy(&self) -> (r: Part)
        ensures
            r@ == self@,
    {
        match self {
            Part::Prefix(p) => Part::Prefix(p.clone()),
            Part::Root => Part::Root,
            Part::Name(n) => Part::Name(n.clone()),
        }
    }
}

/// A path: its components from the outermost to the innermost.
#[derive(Debug, PartialEq, Eq)]
pub struct PathParts {
    pub parts: Vec<Part>,
}

/// The views of a list of parts.
pub open spec fn parts_view(parts: Seq<Part>) -> Seq<PartView> {
    parts.map_values(|p: Part| p@)
}

impl View for PathParts {
    type V = Seq<PartView>;

    open spec fn view(&self) -> Seq<PartView> {
        parts_view(self.parts@)
    }
}

/// Whether the components can stand in this order: a prefix comes first,
/// and the root first or right behind the prefix.
pub open spec fn well_formed(parts: Seq<PartView>) -> bool {
    forall|i: int|
        0 <= i < parts.len() ==> match #[trigger] parts[i] {
            PartView::Prefix(_) => i == 0,
            PartView::Root => i == 0 || (i == 1 && parts[0] is Prefix),
            PartView::Name(_) => true,
        }
}

/// `a` is the beginning of `b`.
pub open spec fn begins(a: Seq<PartView>, b: Seq<PartView>) -> bool {
    a.len() <= b.len() && b.take(a.len() as int) == a
}

/// How many components two paths share at their beginnings.
pub open spec fn common_len(a: Seq<PartView>, b: Seq<PartView>) -> nat
    decreases a.len(),
{
    if a.len() == 0 || b.len() == 0 || a[0] != b[0] {
        0
    } else {
        1 + common_len(a.drop_first(), b.drop_first())
    }
}

/// The names of `text`, a path written with `/`: the pieces between the
/// slashes, without the empty ones and without `.`.
pub open spec fn slashed_names(pieces: Seq<Seq<char>>) -> Seq<PartView>
    decreases pieces.len(),
{
    if pieces.len() == 0 {
        Seq::<PartView>::empty()
    } else {
        let front = slashed_names(pieces.drop_last());
        let last = pieces.last();
        if last.len() == 0 || last == seq!['.'] {
            front
        } else {
            front.push(PartView::Name(last))
        }
    }
}

/// The path that `text` spells with `/` between its components. A slash
/// in front makes it start at the root.
pub open spec fn slashed(text: Seq<char>) -> Seq<PartView> {
    if text.len() > 0 && text[0] == '/' {
        seq![PartView::Root] + slashed_names(split(text, '/'))
    } else {
        slashed_names(split(text, '/'))
    }
}

/// The text of the first `upto` components: a prefix as it is, the root
/// as `/`, and a name behind a `/` where another name comes before it.
pub open spec fn parts_text(parts: Seq<PartView>, upto: int) -> Seq<char>
    decreases upto,
{
    if upto <= 0 {
        Seq::<char>::empty()
    } else {
        let front = parts_text(parts, upto - 1);
        match parts[upto - 1] {
            PartView::Prefix(p) => front + p,
            PartView::Root => front + seq!['/'],
            PartView::Name(n) => if upto >= 2 && parts[upto - 2] is Name {
                front + seq!['/'] + n
            } else {
                front + n
            },
        }
    }
}

/// The path written with `/` between its components.
pub open spec fn path_text(parts: Seq<PartView>) -> Seq<char> {
    parts_text(parts, parts.len() as int)
}

/// Whether a path names one place whatever the working directory is: on
/// Windows it starts with a prefix and the root, elsewhere with the root.
pub open spec fn absolute(parts: Seq<PartView>, host: Host) -> bool {
    if host.windows() {
        parts.len() >= 2 && parts[0] is Prefix && parts[1] is Root
    } else {
        parts.len() >= 1 && parts[0] is Root
    }
}

/// `tail` seen from `base`: a `tail` with a prefix stands for itself, one
/// that starts at the root keeps only the prefix of `base`, any other
/// follows `base`.
pub open spec fn joined(base: Seq<PartView>, tail: Seq<PartView>) -> Seq<PartView> {
    if tail.len() > 0 && tail[0] is Prefix {
        tail
    } else if tail.len() > 0 && tail[0] is Root {
        if base.len() > 0 && base[0] is Prefix {
            seq![base[0]] + tail
        } else {
            tail
        }
    } else {
        base + tail
    }
}

impl PathParts {
    /// The path without components.
    pub fn new() -> (r: Self)
        ensures
            r@ == Seq::<PartView>::empty(),
    {
        let r = Self { parts: Vec::new() };
        r
    }

    pub fn len(&self) -> (r: usize)
        ensures
            r == self@.len(),
    {
        self.parts.len()
    }

    /// Adds one component at the end.
    pub fn push(&mut self, part: Part)
        ensures
            final(self)@ == old(self)@.push(part@),
    {
        self.parts.push(part);
    }

    /// The first `n` components.
    pub fn take(&self, n: usize) -> (r: Self)
        requires
            n <= self@.len(),
        ensures
            r@ == self@.take(n as int),
    {
        self.range(0, n)
    }

    /// The components from number `from` up to number `to`.
    pub fn range(&self, from: usize, to: usize) -> (r: Self)
        requires
            from <= to <= self@.len(),
        ensures
            r@ == self@.subrange(from as int, to as int),
    {
        let mut parts: Vec<Part> = Vec::new();
        let mut i: usize = from;
        while i < to
            invariant
                from <= i <= to <= self.parts.len(),
                parts_view(parts@) == self@.subrange(from as int, i as int),
            decreases to - i,
        {
            let ghost before = parts_view(parts@);
            parts.push(self.parts[i].copy());
            proof {
                assert(parts_view(parts@) =~= before.push(self.parts[i as int]@));
            }
            i += 1;
        }
        Self { parts }
    }

    /// A copy of the path.
    pub fn copy(&self) -> (r: Self)
        ensures
            r@ == self@,
    {
        self.range(0, self.parts.len())
    }

    /// Reads a path written with `/` between its components.
    pub fn from_slashed(text: &str) -> (r: Self)
        ensures
            r@ == slashed(text@),
    {
        let chars = chars_of(text);
        let pieces = split_str(text, '/');
        let mut parts: Vec<Part> = Vec::new();
        let rooted = chars.len() > 0 && chars[0] == '/';
        if rooted {
            parts.push(Part::Root);
        }
        let ghost head = parts_view(parts@);
        proof {
            reveal_strlit(".");
        }
        let mut i: usize = 0;
        while i < pieces.len()
            invariant
                i <= pieces.len(),
                "."@ == seq!['.'],
                parts_view(parts@) == head + slashed_names(pieces.deep_view().take(i as int)),
            decreases pieces.len() - i,
        {
            proof {
                assert(pieces.deep_view().take(i + 1).drop_last() =~= pieces.deep_view().take(
                    i as int,
                ));
            }
            let piece = &pieces[i];
            if !(piece.as_str().is_empty() || piece.as_str().eq(".")) {
                let ghost before = parts_view(parts@);
                parts.push(Part::Name(piece.clone()));
                proof {
                    assert(parts_view(parts@) =~= before.push(PartView::Name(piece@)));
                }
            }
            i += 1;
        }
        proof {
            assert(pieces.deep_view().take(pieces.len() as int) =~= pieces.deep_view());
        }
        Self { parts }
    }

    /// The path written with `/` between its components.
    pub fn to_string(&self) -> (r: String)
        ensures
            r@ == path_text(self@),
    {
        let mut r = String::new();
        let mut i: usize = 0;
        proof {
            reveal_strlit("/");
        }
        while i < self.parts.len()
            invariant
                i <= self.parts.len(),
                "/"@ == seq!['/'],
                r@ == parts_text(self@, i as int),
            decreases self.parts.len() - i,
        {
            proof {
                if i >= 1 {
                }
            }
            match &self.parts[i] {
                Part::Prefix(p) => {
                    r.append(p.as_str());
                },
                Part::Root => {
                    r.append("/");
                },
                Part::Name(n) => {
                    let after_name = i >= 1 && match &self.parts[i - 1] {
                        Part::Name(_) => true,
                        _ => false,
                    };
                    if after_name {
                        r.append("/");
                    }
                    r.append(n.as_str());
                },
            }
            i += 1;
        }
        r
    }

    /// Whether the path names one place whatever the working directory
    /// is.
    pub fn is_absolute(&self, host: Host) -> (r: bool)
        ensures
            r == absolute(self@, host),
    {
        proof {
            if self.parts.len() >= 1 {
            }
            if self.parts.len() >= 2 {
            }
        }
        if host.is_windows() {
            self.parts.len() >= 2 && match (&self.parts[0], &self.parts[1]) {
                (Part::Prefix(_), Part::Root) => true,
                _ => false,
            }
        } else {
            self.parts.len() >= 1 && match &self.parts[0] {
                Part::Root => true,
                _ => false,
            }
        }
    }

    /// `tail` seen from this path (`Path::join`).
    pub fn join(&self, tail: &PathParts) -> (r: Self)
        ensures
            r@ == joined(self@, tail@),
    {
        proof {
            if tail.parts.len() >= 1 {
            }
            if self.parts.len() >= 1 {
            }
        }
        let keep: usize = if tail.parts.len() == 0 {
            self.parts.len()
        } else {
            match &tail.parts[0] {
                Part::Prefix(_) => 0,
                Part::Root => if self.parts.len() > 0 {
                    match &self.parts[0] {
                        Part::Prefix(_) => 1,
                        _ => 0,
                    }
                } else {
                    0
                },
                Part::Name(_) => self.parts.len(),
            }
        };
        let mut r = self.take(keep);
        let ghost head = r@;
        let mut i: usize = 0;
        while i < tail.parts.len()
            invariant
                i <= tail.parts.len(),
                r@ == head + tail@.take(i as int),
            decreases tail.parts.len() - i,
        {
            r.push(tail.parts[i].copy());
            i += 1;
        }
        proof {
            if keep == 1 {
            }
        }
        r
    }

    /// The path that `tail`, written with `/`, names from this path.
    pub fn join_slashed(&self, tail: &str) -> (r: Self)
        ensures
            r@ == joined(self@, slashed(tail@)),
    {
        self.join(&PathParts::from_slashed(tail))
    }

    /// The path with the name `name` behind it.
    pub fn join_name(&self, name: &str) -> (r: Self)
        ensures
            r@ == self@.push(PartView::Name(name@)),
    {
        let mut r = self.copy();
        r.push(Part::Name(name.to_owned()));
        r
    }

    /// Whether this path starts with all of `base` (`Path::starts_with`).
    pub fn starts_with(&self, base: &PathParts) -> (r: bool)
        ensures
            r == begins(base@, self@),
    {
        if base.parts.len() > self.parts.len() {
            return false;
        }
        let mut i: usize = 0;
        while i < base.parts.len()
            invariant
                i <= base.parts.len() <= self.parts.len(),
                forall|j: int| 0 <= j < i ==> self@[j] == base@[j],
            decreases base.parts.len() - i,
        {
            proof {
                assert(base@[i as int] == base.parts[i as int]@);
            }
            if !self.parts[i].same(&base.parts[i]) {
                return false;
            }
            i += 1;
        }
        proof {
            assert(self@.take(base@.len() as int) =~= base@);
        }
        true
    }

    /// What follows `base` in this path, if the path starts with `base`
    /// (`Path::strip_prefix`).
    pub fn strip_prefix(&self, base: &PathParts) -> (r: Option<PathParts>)
        ensures
            r is Some <==> begins(base@, self@),
            r matches Some(rest) ==> rest@ == self@.skip(base@.len() as int),
    {
        if self.starts_with(base) {
            Some(self.range(base.parts.len(), self.parts.len()))
        } else {
            None
        }
    }

    /// The last component, where it is a name other than `..`
    /// (`Path::file_name`).
    pub fn file_name(&self) -> (r: Option<String>)
        ensures
            match r {
                Some(name) => self@.len() > 0 && self@.last() == PartView::Name(name@) && name@
                    != ".."@,
                None => self@.len() == 0 || !(self@.last() is Name) || self@.last()
                    == PartView::Name(".."@),
            },
    {
        if self.parts.len() == 0 {
            return None;
        }
        match &self.parts[self.parts.len() - 1] {
            Part::Name(n) => if n.as_str().eq("..") {
                None
            } else {
                Some(n.clone())
            },
            _ => None,
        }
    }
}

/// `path` seen from `root`.
pub fn prefix_path(root: &PathParts, path: &PathParts) -> (r: PathParts)
    ensures
        r@ == joined(root@, path@),
{
    root.join(path)
}

/// A path that does not start with the prefix asked for.
#[derive(Debug)]
pub struct PathNotPrefixed {
    pub path: PathParts,
    pub prefix: PathParts,
}

impl PathNotPrefixed {
    /// The sentence that describes the error.
    pub open spec fn message(&self) -> Seq<char> {
        "Path "@ + debug_text(path_text(self.path@)) + " didn't have prefix "@ + debug_text(
            path_text(self.prefix@),
        ) + "."@
    }

    pub fn to_string(&self) -> (r: String)
        ensures
            r@ == self.message(),
    {
        "Path ".to_owned().concat(debug_str(self.path.to_string().as_str()).as_str()).concat(
            " didn't have prefix ",
        ).concat(debug_str(self.prefix.to_string().as_str()).as_str()).concat(".")
    }
}

/// What follows `root` in `path`.
pub fn unprefix_path(root: &PathParts, path: &PathParts) -> (r: Result<PathParts, PathNotPrefixed>)
    ensures
        match r {
            Ok(rest) => begins(root@, path@) && rest@ == path@.skip(root@.len() as int),
            Err(e) => !begins(root@, path@) && e.path@ == path@ && e.prefix@ == root@,
        },
{
    match path.strip_prefix(root) {
        Some(rest) => Ok(rest),
        None => Err(PathNotPrefixed { path: path.copy(), prefix: root.copy() }),
    }
}

/// The marker that Windows puts in front of a path to switch off its
/// reading of the path.
pub open spec fn verbatim_marker() -> Seq<char> {
    seq!['\\', '\\', '?', '\\']
}

/// `parts` without the verbatim marker in its prefix.
pub open spec fn dedosed(parts: Seq<PartView>) -> Seq<PartView> {
    if parts.len() > 0 {
        match parts[0] {
            PartView::Prefix(p) => if has_prefix(p, verbatim_marker()) {
                parts.update(0, PartView::Prefix(p.skip(4)))
            } else {
                parts
            },
            _ => parts,
        }
    } else {
        parts
    }
}

/// Takes the verbatim marker off the prefix of a Windows path; any other
/// path stays as it is.
pub fn dedos_maybe(path: &PathParts) -> (r: PathParts)
    ensures
        r@ == dedosed(path@),
{
    if path.parts.len() == 0 {
        return path.copy();
    }
    proof {
        reveal_strlit("\\\\?\\");
        assert("\\\\?\\"@ =~= verbatim_marker());
    }
    match &path.parts[0] {
        Part::Prefix(p) => match strip_prefix(p.as_str(), "\\\\?\\") {
            Some(rest) => {
                let mut r = PathParts::new();
                r.push(Part::Prefix(rest));
                let tail = path.range(1, path.parts.len());
                let ghost head = r@;
                let mut i: usize = 0;
                proof {
                    assert(tail@.take(0) =~= Seq::<PartView>::empty());
                }
                while i < tail.parts.len()
                    invariant
                        i <= tail.parts.len(),
                        r@ == head + tail@.take(i as int),
                    decreases tail.parts.len() - i,
                {
                    r.push(tail.parts[i].copy());
                    i += 1;
                }
                r
            },
            None => path.copy(),
        },
        _ => path.copy(),
    }
}

/// The path with `/` between its components. Components know no
/// separator, so nothing changes; the slashes come when the path is
/// written.
pub fn slash_maybe(path: &PathParts) -> (r: PathParts)
    ensures
        r@ == path@,
{
    path.copy()
}

/// A path as other tools want it on Windows: without the verbatim marker,
/// and written with `/`.
pub fn unwin_maybe(path: &PathParts) -> (r: PathParts)
    ensures
        r@ == dedosed(path@),
{
    slash_maybe(&dedos_maybe(path))
}

/// The longest beginning of `abs_dest` that `abs_src` starts with too.
pub fn common_root(abs_src: &PathParts, abs_dest: &PathParts) -> (r: PathParts)
    ensures
        r@ == abs_dest@.take(common_len(abs_src@, abs_dest@) as int),
        common_len(abs_src@, abs_dest@) <= abs_src@.len(),
        common_len(abs_src@, abs_dest@) <= abs_dest@.len(),
        begins(r@, abs_src@),
        begins(r@, abs_dest@),
{
    let mut k: usize = 0;
    proof {
        assert(abs_src@.skip(0) =~= abs_src@);
        assert(abs_dest@.skip(0) =~= abs_dest@);
    }
    while k < abs_src.parts.len() && k < abs_dest.parts.len() && abs_src.parts[k].same(
        &abs_dest.parts[k],
    )
        invariant
            k <= abs_src.parts.len(),
            k <= abs_dest.parts.len(),
            common_len(abs_src@, abs_dest@) == k + common_len(
                abs_src@.skip(k as int),
                abs_dest@.skip(k as int),
            ),
            forall|j: int| 0 <= j < k ==> abs_src@[j] == abs_dest@[j],
        decreases abs_src.parts.len() - k,
    {
        proof {
            assert(abs_src@.skip(k as int).drop_first() =~= abs_src@.skip(k + 1));
            assert(abs_dest@.skip(k as int).drop_first() =~= abs_dest@.skip(k + 1));
        }
        k += 1;
    }
    proof {
        if k < abs_src.parts.len() && k < abs_dest.parts.len() {
        }
        assert(abs_src@.take(k as int) =~= abs_dest@.take(k as int));
    }
    abs_dest.take(k)
}

/// As many `..` as `ups` says, then `rest`.
pub open spec fn climbing(ups: nat, rest: Seq<PartView>) -> Seq<PartView> {
    Seq::new(ups, |i: int| PartView::Name(".."@)) + rest
}

/// How many steps up the relative path takes from `relative_to`. On
/// Windows the steps down into `path` are taken off that number.
pub open spec fn steps_up(path: Seq<PartView>, relative_to: Seq<PartView>, host: Host) -> int {
    let common = common_len(path, relative_to);
    if host.windows() {
        (relative_to.len() - common) - (path.len() - common)
    } else {
        relative_to.len() - common
    }
}

/// The path that leads from `relative_to` to `path`.
pub open spec fn relativized(path: Seq<PartView>, relative_to: Seq<PartView>, host: Host) -> Seq<
    PartView,
> {
    climbing(
        steps_up(path, relative_to, host) as nat,
        path.skip(common_len(path, relative_to) as int),
    )
}

/// Transforms `abs_path` to be relative to `abs_relative_to`.
pub fn relativize_path(abs_path: &PathParts, abs_relative_to: &PathParts, host: Host) -> (r:
    PathParts)
    requires
        well_formed(abs_path@),
        absolute(abs_path@, host),
        absolute(abs_relative_to@, host),
        host.windows() ==> abs_path@[0] == abs_relative_to@[0] && abs_path@.len()
            <= abs_relative_to@.len(),
    ensures
        r@ == relativized(abs_path@, abs_relative_to@, host),
{
    let root = common_root(abs_path, abs_relative_to);
    let common = root.len();
    proof {
        let a = abs_path@;
        let b = abs_relative_to@;
        assert(common_len(a, b) == 1 + common_len(a.drop_first(), b.drop_first()));
        if host.windows() {
        }
    }
    let down = abs_path.len() - common;
    let up = abs_relative_to.len() - common;
    let ups: usize = if host.is_windows() {
        up - down
    } else {
        up
    };
    let mut r = PathParts::new();
    let mut i: usize = 0;
    while i < ups
        invariant
            i <= ups,
            r@ == Seq::new(i as nat, |j: int| PartView::Name(".."@)),
        decreases ups - i,
    {
        r.push(Part::Name("..".to_owned()));
        i += 1;
    }
    let rest = abs_path.range(common, abs_path.len());
    proof {
        if rest@.len() > 0 {
        }
    }
    r.join(&rest)
}

/// Whether a path, made absolute and free of links by the program, lies
/// under `root`.
pub fn under_root(normalized: &PathParts, root: &PathParts) -> (r: bool)
    ensures
        r == begins(root@, normalized@),
{
    normalized.starts_with(root)
}

/// The user has no home directory.
#[derive(Debug)]
pub struct NoHomeDir;

impl NoHomeDir {
    pub fn to_string(&self) -> (r: String)
        ensures
            r@ == "Failed to get user's home directory!"@,
    {
        "Failed to get user's home directory!".to_owned()
    }
}

/// Where the tool is installed, under the user's home directory.
pub fn install_dir(home: Result<PathParts, NoHomeDir>) -> (r: Result<PathParts, NoHomeDir>)
    ensures
        match (home, r) {
            (Ok(home), Ok(dir)) => dir@ == home@.push(PartView::Name(".cargo-mobile"@)),
            (Err(_), Err(_)) => true,
            _ => false,
        },
{
    match home {
        Ok(home) => Ok(home.join_name(".cargo-mobile")),
        Err(e) => Err(e),
    }
}

/// Where the tool keeps what it checks out.
pub fn checkouts_dir(home: Result<PathParts, NoHomeDir>) -> (r: Result<PathParts, NoHomeDir>)
    ensures
        match (home, r) {
            (Ok(home), Ok(dir)) => dir@ == home@.push(PartView::Name(".cargo-mobile"@)).push(
                PartView::Name("checkouts"@),
            ),
            (Err(_), Err(_)) => true,
            _ => false,
        },
{
    match install_dir(home) {
        Ok(dir) => Ok(dir.join_name("checkouts")),
        Err(e) => Err(e),
    }
}

/// A path that could not be made absolute.
#[derive(Debug)]
pub enum NormalizationError {
    /// The path exists, and resolving it failed; `cause` says why.
    CanonicalizationFailed { path: PathParts, cause: String },
    /// The path does not exist, and working it out failed.
    PathAbsFailed { path: PathParts, cause: String },
}

impl NormalizationError {
    /// The sentence that describes the error.
    pub open spec fn message(&self) -> Seq<char> {
        match self {
            NormalizationError::CanonicalizationFailed { path, cause } => {
                "Failed to canonicalize existing path "@ + debug_text(path_text(path@)) + ": "@
                    + cause@
            },
            NormalizationError::PathAbsFailed { path, cause } => {
                "Failed to normalize non-existent path "@ + debug_text(path_text(path@)) + ": "@
                    + cause@
            },
        }
    }

    pub fn to_string(&self) -> (r: String)
        ensures
            r@ == self.message(),
    {
        match self {
            NormalizationError::CanonicalizationFailed { path, cause } => {
                "Failed to canonicalize existing path ".to_owned().concat(
                    debug_str(path.to_string().as_str()).as_str(),
                ).concat(": ").concat(cause.as_str())
            },
            NormalizationError::PathAbsFailed { path, cause } => {
                "Failed to normalize non-existent path ".to_owned().concat(
                    debug_str(path.to_string().as_str()).as_str(),
                ).concat(": ").concat(cause.as_str())
            },
        }
    }
}

/// `path` with the home directory in the place of a `~` at its
/// beginning.
pub fn expand_home(path: &PathParts, home: Result<PathParts, NoHomeDir>) -> (r: Result<
    PathParts,
    NoHomeDir,
>)
    ensures
        match (home, r) {
            (Ok(home), Ok(expanded)) => expanded@ == if path@.len() > 0 && path@[0]
                == PartView::Name("~"@) {
                joined(home@, path@.skip(1))
            } else {
                path@
            },
            (Err(_), Err(_)) => true,
            _ => false,
        },
{
    let home = match home {
        Ok(home) => home,
        Err(e) => {
            return Err(e);
        },
    };
    let mut tilde = PathParts::new();
    tilde.push(Part::Name("~".to_owned()));
    proof {
        assert(tilde@[0] == PartView::Name("~"@));
        if path@.len() > 0 {
            assert(path@.take(1) =~= seq![path@[0]]);
            if path@[0] == PartView::Name("~"@) {
            }
        }
    }
    match path.strip_prefix(&tilde) {
        Some(rest) => Ok(home.join(&rest)),
        None => Ok(path.copy()),
    }
}

/// The directory for the tool's temporary files, under that of the
/// system.
pub fn temp_dir(system_temp: &PathParts) -> (r: PathParts)
    ensures
        r@ == system_temp@.push(PartView::Name("com.brainiumstudios.cargo-mobile"@)),
{
    system_temp.join_name("com.brainiumstudios.cargo-mobile")
}

} // verus!
