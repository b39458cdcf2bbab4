//! The Change Classifier: from a changed path to the boolean facts the
//! rebuild machinery acts on.
//!
//! A path is classified against three pattern sets: the copy-relevant
//! suffixes (static assets that are copied into the output), the
//! build-relevant suffixes (frontend sources that require recompilation),
//! and the ignore markers (characters that editor swap and temp files
//! carry in their names). A path carrying an ignore marker contributes to
//! neither flag, whatever its suffix. A directory-kind change is
//! classified by OR-reducing over the files of its subtree, stopping early
//! once both flags are true.
//!
//! The pattern matching itself runs through a glob engine; the patterns
//! the library builds for it are of the two simple shapes `*<suffix>` and
//! `*<marker>*`, whose meaning the contracts here state exactly.

use vstd::prelude::*;

verus! {

use vstd::string::StringExecFns;

/// The facts derived from one filesystem change. Derived, never stored.
#[derive(Clone, Copy, PartialEq, Eq, Structural, Debug)]
pub struct ClassificationResult {
    /// The change requires the static assets to be copied anew.
    pub affects_copy: bool,
    /// The change requires the frontend to be recompiled.
    pub affects_build: bool,
}

/// A character that stands for itself in a glob pattern, on every
/// platform: printable ASCII with none of the glob metacharacters, and not
/// the path separator (which some platforms rewrite before matching).
pub open spec fn plain_glob_char(c: char) -> bool {
    &&& 32 <= (c as int)
    &&& (c as int) < 127
    &&& c != '*'
    &&& c != '?'
    &&& c != '['
    &&& c != ']'
    &&& c != '{'
    &&& c != '}'
    &&& c != '\\'
    &&& c != ','
    &&& c != '/'
}

/// Text made only of characters that stand for themselves in a glob, and
/// short enough that the glob engine is sure to accept the pattern built
/// from it: the engine caps the compiled matcher's size, far above what a
/// pattern of this length can reach.
pub open spec fn plain_glob_text(s: Seq<char>) -> bool {
    &&& forall|i: int| 0 <= i < s.len() ==> plain_glob_char(s[i])
    &&& s.len() <= 1024
}

/// `suffix` is the tail of `path`.
pub open spec fn is_suffix_of(suffix: Seq<char>, path: Seq<char>) -> bool {
    &&& suffix.len() <= path.len()
    &&& path.subrange(path.len() - suffix.len(), path.len() as int) == suffix
}

/// `path` contains the character `c` somewhere.
pub open spec fn contains_char(path: Seq<char>, c: char) -> bool {
    exists|i: int| 0 <= i < path.len() && path[i] == c
}

/// `path` ends in one of the given suffixes.
pub open spec fn matches_suffix_set(suffixes: Seq<Seq<char>>, path: Seq<char>) -> bool {
    exists|i: int| 0 <= i < suffixes.len() && is_suffix_of(suffixes[i], path)
}

/// `path` carries one of the given marker characters.
pub open spec fn matches_marker_set(markers: Seq<char>, path: Seq<char>) -> bool {
    exists|i: int| 0 <= i < markers.len() && contains_char(path, markers[i])
}

/// The three pattern sets the classifier runs against.
pub struct PatternSets {
    /// Suffixes of static asset files that are copied into the output.
    pub copy_suffixes: Vec<String>,
    /// Suffixes of frontend source files that require recompilation.
    pub build_suffixes: Vec<String>,
    /// Characters whose presence anywhere in a path marks it as an
    /// editor swap or temp file, to be ignored outright.
    pub ignore_markers: Vec<char>,
}

impl PatternSets {
    /// The suffixes of one set, as character sequences.
    pub open spec fn views_of(v: Seq<String>) -> Seq<Seq<char>> {
        v.map_values(|s: String| s@)
    }

    /// Every pattern piece is plain glob text, so the glob engine reads
    /// each as the literal it looks like.
    pub open spec fn wf(self) -> bool {
        &&& forall|i: int|
            0 <= i < self.copy_suffixes@.len() ==> plain_glob_text(#[trigger] self.copy_suffixes@[i]@)
        &&& forall|i: int|
            0 <= i < self.build_suffixes@.len() ==> plain_glob_text(
                #[trigger] self.build_suffixes@[i]@,
            )
        &&& forall|i: int|
            0 <= i < self.ignore_markers@.len() ==> plain_glob_char(#[trigger] self.ignore_markers@[i])
    }

    /// The sets this project watches: html, css and js files are copied,
    /// elm files are compiled, and names carrying `#` are ignored.
    pub fn defaults() -> (r: PatternSets)
        ensures
            r.wf(),
            PatternSets::views_of(r.copy_suffixes@) == seq![".html"@, ".css"@, ".js"@],
            PatternSets::views_of(r.build_suffixes@) == seq![".elm"@],
            r.ignore_markers@ == seq!['#'],
    {
        proof {
            reveal_strlit(".html");
            reveal_strlit(".css");
            reveal_strlit(".js");
            reveal_strlit(".elm");
        }
        let mut copy_suffixes: Vec<String> = Vec::new();
        copy_suffixes.push(String::from_str(".html"));
        copy_suffixes.push(String::from_str(".css"));
        copy_suffixes.push(String::from_str(".js"));
        let mut build_suffixes: Vec<String> = Vec::new();
        build_suffixes.push(String::from_str(".elm"));
        let mut ignore_markers: Vec<char> = Vec::new();
        ignore_markers.push('#');
        let r = PatternSets { copy_suffixes, build_suffixes, ignore_markers };
        proof {
            assert(PatternSets::views_of(r.copy_suffixes@) =~= seq![".html"@, ".css"@, ".js"@]);
            assert(PatternSets::views_of(r.build_suffixes@) =~= seq![".elm"@]);
            assert(r.ignore_markers@ =~= seq!['#']);
        }
        r
    }

    /// The path is an editor swap or temp file: it is ignored outright.
    pub open spec fn spec_ignored(self, path: Seq<char>) -> bool {
        matches_marker_set(self.ignore_markers@, path)
    }

    /// Classification of a single regular file's path.
    pub open spec fn spec_classify_file(self, path: Seq<char>) -> ClassificationResult {
        ClassificationResult {
            affects_copy: matches_suffix_set(PatternSets::views_of(self.copy_suffixes@), path)
                && !self.spec_ignored(path),
            affects_build: matches_suffix_set(PatternSets::views_of(self.build_suffixes@), path)
                && !self.spec_ignored(path),
        }
    }

    /// Classification of a directory-kind change, over the paths of the
    /// files found in its subtree: the OR over the per-file rule.
    pub open spec fn spec_classify_paths(self, paths: Seq<Seq<char>>) -> ClassificationResult {
        ClassificationResult {
            affects_copy: exists|i: int|
                0 <= i < paths.len() && self.spec_classify_file(paths[i]).affects_copy,
            affects_build: exists|i: int|
                0 <= i < paths.len() && self.spec_classify_file(paths[i]).affects_build,
        }
    }
}

/// Whether the glob pattern `*<suffix>` matches `path`.
///
/// Relies on globset::Glob and GlobMatcher::is_match: a glob is matched
/// against the whole path text, and with the builder's defaults `*`
/// matches any sequence of characters — any number, the path separator
/// and line breaks among them — so `*<suffix>` matches exactly the paths
/// whose text ends in `<suffix>`. The suffix is plain printable ASCII, so
/// the glob engine reads it literally, and a byte-level suffix of valid
/// UTF-8 is a character-level one; its bounded length keeps the compiled
/// pattern far below the engine's size cap, so building the matcher
/// cannot fail.
#[verifier::external_body]
fn glob_suffix_matches(suffix: &str, path: &str) -> (r: bool)
    requires
        plain_glob_text(suffix@),
    ensures
        r == is_suffix_of(suffix@, path@),
{
    let pattern = format!("*{}", suffix);
    globset::Glob::new(&pattern).unwrap().compile_matcher().is_match(path)
}

/// Whether the glob pattern `*<marker>*` matches `path`.
///
/// Relies on globset::Glob and GlobMatcher::is_match: a glob is matched
/// against the whole path text, and with the builder's defaults `*`
/// matches any sequence of characters, so `*<marker>*` matches exactly
/// the paths whose text contains the marker character; the marker is
/// plain printable ASCII, so the glob engine reads it literally.
#[verifier::external_body]
fn glob_marker_matches(marker: char, path: &str) -> (r: bool)
    requires
        plain_glob_char(marker),
    ensures
        r == contains_char(path@, marker),
{
    let pattern = format!("*{}*", marker);
    globset::Glob::new(&pattern).unwrap().compile_matcher().is_match(path)
}

/// Whether `path` ends in one of the given suffixes.
fn matches_any_suffix(suffixes: &Vec<String>, path: &str) -> (r: bool)
    requires
        forall|i: int| 0 <= i < suffixes@.len() ==> plain_glob_text(#[trigger] suffixes@[i]@),
    ensures
        r == matches_suffix_set(PatternSets::views_of(suffixes@), path@),
{
    let mut k: usize = 0;
    while k < suffixes.len()
        invariant
            k <= suffixes@.len(),
            forall|i: int| 0 <= i < suffixes@.len() ==> plain_glob_text(#[trigger] suffixes@[i]@),
            !matches_suffix_set(PatternSets::views_of(suffixes@).take(k as int), path@),
        decreases suffixes@.len() - k,
    {
        if glob_suffix_matches(suffixes[k].as_str(), path) {
            proof {
                assert(PatternSets::views_of(suffixes@)[k as int] == suffixes@[k as int]@);
            }
            return true;
        }
        k = k + 1;
    }
    proof {
        assert(PatternSets::views_of(suffixes@).take(suffixes@.len() as int) =~= PatternSets::views_of(
            suffixes@,
        ));
    }
    false
}

/// Whether `path` carries one of the given marker characters.
fn matches_any_marker(markers: &Vec<char>, path: &str) -> (r: bool)
    requires
        forall|i: int| 0 <= i < markers@.len() ==> plain_glob_char(#[trigger] markers@[i]),
    ensures
        r == matches_marker_set(markers@, path@),
{
    let mut k: usize = 0;
    while k < markers.len()
        invariant
            k <= markers@.len(),
            forall|i: int| 0 <= i < markers@.len() ==> plain_glob_char(#[trigger] markers@[i]),
            !matches_marker_set(markers@.take(k as int), path@),
        decreases markers@.len() - k,
    {
        if glob_marker_matches(markers[k], path) {
            return true;
        }
        k = k + 1;
    }
    proof {
        assert(markers@.take(markers@.len() as int) =~= markers@);
    }
    false
}

impl PatternSets {
    /// Classify the path of a single regular file: membership in the copy
    /// and build sets, with the ignore markers taking precedence over
    /// both.
    pub fn classify_file(&self, path: &str) -> (r: ClassificationResult)
        requires
            self.wf(),
        ensures
            r == self.spec_classify_file(path@),
    {
        if matches_any_marker(&self.ignore_markers, path) {
            ClassificationResult { affects_copy: false, affects_build: false }
        } else {
            ClassificationResult {
                affects_copy: matches_any_suffix(&self.copy_suffixes, path),
                affects_build: matches_any_suffix(&self.build_suffixes, path),
            }
        }
    }

    /// Classify a directory-kind change over the files of its subtree:
    /// each descendant counts under the per-file rule, and the scan stops
    /// early once both flags are already true.
    pub fn classify_paths(&self, paths: &Vec<String>) -> (r: ClassificationResult)
        requires
            self.wf(),
        ensures
            r == self.spec_classify_paths(paths@.map_values(|p: String| p@)),
    {
        let ghost all = paths@.map_values(|p: String| p@);
        let mut affects_copy = false;
        let mut affects_build = false;
        let mut k: usize = 0;
        while k < paths.len() && !(affects_copy && affects_build)
            invariant
                self.wf(),
                k <= paths@.len(),
                all == paths@.map_values(|p: String| p@),
                affects_copy == exists|i: int|
                    0 <= i < k && self.spec_classify_file(all[i]).affects_copy,
                affects_build == exists|i: int|
                    0 <= i < k && self.spec_classify_file(all[i]).affects_build,
            decreases paths@.len() - k,
        {
            let one = self.classify_file(paths[k].as_str());
            let new_copy = affects_copy || one.affects_copy;
            let new_build = affects_build || one.affects_build;
            proof {
                assert(all[k as int] == paths@[k as int]@);
                if new_copy {
                    if affects_copy {
                        let i0 = choose|i: int|
                            0 <= i < k && self.spec_classify_file(all[i]).affects_copy;
                        assert(0 <= i0 < k + 1 && self.spec_classify_file(all[i0]).affects_copy);
                    } else {
                        assert(0 <= k < k + 1 && self.spec_classify_file(
                            all[k as int],
                        ).affects_copy);
                    }
                } else {
                    assert forall|i: int|
                        0 <= i < k + 1 implies !self.spec_classify_file(all[i]).affects_copy by {
                        if i == k {
                        }
                    }
                }
                if new_build {
                    if affects_build {
                        let i0 = choose|i: int|
                            0 <= i < k && self.spec_classify_file(all[i]).affects_build;
                        assert(0 <= i0 < k + 1 && self.spec_classify_file(all[i0]).affects_build);
                    } else {
                        assert(0 <= k < k + 1 && self.spec_classify_file(
                            all[k as int],
                        ).affects_build);
                    }
                } else {
                    assert forall|i: int|
                        0 <= i < k + 1 implies !self.spec_classify_file(all[i]).affects_build by {
                        if i == k {
                        }
                    }
                }
            }
            affects_copy = new_copy;
            affects_build = new_build;
            k = k + 1;
        }
        proof {
            if affects_copy && affects_build {
                assert(self.spec_classify_paths(all).affects_copy);
                assert(self.spec_classify_paths(all).affects_build);
            }
        }
        ClassificationResult { affects_copy, affects_build }
    }
}

/// A path carrying an ignore marker contributes to neither flag, whatever
/// suffixes it also matches: the ignore set takes precedence.
pub proof fn lemma_ignored_path_is_inert(sets: PatternSets, path: Seq<char>)
    requires
        sets.spec_ignored(path),
    ensures
        sets.spec_classify_file(path) == (ClassificationResult {
            affects_copy: false,
            affects_build: false,
        }),
{
}

/// Classifying a directory-kind change is the logical OR of classifying
/// each of its non-ignored descendant files: the ignored ones contribute
/// nothing, so leaving them in or out of the OR makes no difference.
pub proof fn lemma_directory_classification_is_or(sets: PatternSets, paths: Seq<Seq<char>>)
    ensures
        sets.spec_classify_paths(paths).affects_copy == (exists|i: int|
            0 <= i < paths.len() && !sets.spec_ignored(paths[i]) && sets.spec_classify_file(
                paths[i],
            ).affects_copy),
        sets.spec_classify_paths(paths).affects_build == (exists|i: int|
            0 <= i < paths.len() && !sets.spec_ignored(paths[i]) && sets.spec_classify_file(
                paths[i],
            ).affects_build),
{
    assert forall|i: int| 0 <= i < paths.len() implies (sets.spec_classify_file(
        paths[i],
    ).affects_copy == (!sets.spec_ignored(paths[i]) && sets.spec_classify_file(
        paths[i],
    ).affects_copy)) by {}
    assert forall|i: int| 0 <= i < paths.len() implies (sets.spec_classify_file(
        paths[i],
    ).affects_build == (!sets.spec_ignored(paths[i]) && sets.spec_classify_file(
        paths[i],
    ).affects_build)) by {}
}

} // verus!
