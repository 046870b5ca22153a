//! The handles of a lowered module: for each source module that it
//! imports from, one private binding that holds what the source exports.

use crate::error::TransformError;
use crate::syntax::{dummy_span, Ident, IdentView, Origin, Span};
use vstd::prelude::*;

verus! {

/// What matches in a source module's name is replaced to make the name of
/// its handle: every character that is not an ASCII letter or digit.
pub const NORMALIZE_PATTERN: &'static str = "[^a-zA-Z0-9]";

/// What takes the place of each match.
pub const NORMALIZE_REPLACEMENT: &'static str = "_";

/// What stands in front of a source module's name in the name of its
/// handle.
pub const MODULE_IDENT_PREFIX: &'static str = "__";

/// `regex::Error`: why a pattern did not compile. It is handed on
/// unread.
#[verifier::external_type_specification]
#[verifier::external_body]
pub struct ExRegexError(regex::Error);

/// Whether `regex::Regex::new` compiles `pattern`: whether it is a
/// regular expression as the regex crate writes them, and one that stays
/// within the limits of size that the crate has fixed.
pub uninterp spec fn regex_compiles(pattern: Seq<char>) -> bool;

/// The text that `regex::Regex::replace_all` returns for `haystack` and
/// `replacement` on the regular expression that `pattern` compiles to.
pub uninterp spec fn regex_replace_all(
    pattern: Seq<char>,
    haystack: Seq<char>,
    replacement: Seq<char>,
) -> Seq<char>;

/// Replaces every match of `pattern` in `haystack` by `replacement`, with
/// `regex::Regex::replace_all`. The pattern is handed over as the regex
/// crate takes one, compiled by `regex::Regex::new`; where it does not
/// compile, the error of the crate is returned as it is.
///
/// Trusted: that whether the pattern compiles depends on the pattern
/// alone, and that the text returned is the one that the regex crate
/// computes from these three texts and from nothing else. Nothing is
/// claimed of which patterns compile, nor of what the text is.
#[verifier::external_body]
fn replace_all(pattern: &str, haystack: &str, replacement: &str) -> (r: Result<String, regex::Error>)
    ensures
        r is Ok <==> regex_compiles(pattern@),
        r matches Ok(text) ==> text@ == regex_replace_all(pattern@, haystack@, replacement@),
{
    let re = regex::Regex::new(pattern)?;
    Ok(re.replace_all(haystack, replacement).into_owned())
}

/// Whether handles can be named: whether the pattern by which a source
/// module's name is made into one compiles.
pub open spec fn handles_can_be_named() -> bool {
    regex_compiles(NORMALIZE_PATTERN@)
}

/// The name of the handle of the source module `module_src`.
pub open spec fn handle_name(module_src: Seq<char>) -> Seq<char> {
    regex_replace_all(NORMALIZE_PATTERN@, MODULE_IDENT_PREFIX@ + module_src, NORMALIZE_REPLACEMENT@)
}

/// The handle of the `index`-th distinct source module that a module
/// imports from, `module_src`.
pub open spec fn handle_ident(index: int, module_src: Seq<char>) -> IdentView {
    IdentView { sym: handle_name(module_src), span: dummy_span(), origin: Origin::Handle(index as usize) }
}

/// Makes the handle of the `index`-th source module out of what the
/// replacement of its name came to.
pub fn module_ident_from(normalized: Result<String, regex::Error>, index: usize) -> (r: Result<Ident, TransformError>)
    ensures
        match r {
            Ok(ident) => normalized matches Ok(name) && ident@ == (IdentView {
                sym: name@,
                span: dummy_span(),
                origin: Origin::Handle(index),
            }),
            Err(e) => normalized is Err && e == TransformError::InternalInvariantViolation,
        },
{
    match normalized {
        Ok(sym) => Ok(Ident { sym, span: Span::dummy(), origin: Origin::Handle(index) }),
        Err(_) => Err(TransformError::InternalInvariantViolation),
    }
}

/// Makes the handle of the `index`-th source module, `module_src`.
///
/// Fails if the pattern by which names are made does not compile, and
/// only then.
pub fn module_ident(module_src: &String, index: usize) -> (r: Result<Ident, TransformError>)
    ensures
        match r {
            Ok(ident) => handles_can_be_named() && ident@ == handle_ident(index as int, module_src@),
            Err(e) => !handles_can_be_named() && e == TransformError::InternalInvariantViolation,
        },
{
    let prefixed = String::from_str(MODULE_IDENT_PREFIX).concat(module_src.as_str());
    module_ident_from(replace_all(NORMALIZE_PATTERN, prefixed.as_str(), NORMALIZE_REPLACEMENT), index)
}

/// `sources` with `module_src` behind it, unless it is there already.
pub open spec fn with_source(sources: Seq<Seq<char>>, module_src: Seq<char>) -> Seq<Seq<char>> {
    if sources.contains(module_src) {
        sources
    } else {
        sources.push(module_src)
    }
}

/// The place of `module_src` in `sources`.
pub open spec fn source_index(sources: Seq<Seq<char>>, module_src: Seq<char>) -> int {
    choose|k: int| 0 <= k < sources.len() && sources[k] == module_src
}

/// In a sequence without duplicates, the place of an element is the one
/// place where it stands.
pub proof fn lemma_source_index(sources: Seq<Seq<char>>, k: int)
    requires
        sources.no_duplicates(),
        0 <= k < sources.len(),
    ensures
        source_index(sources, sources[k]) == k,
{
}

/// A source that has a handle keeps it, at the same place, when another
/// source is given one.
pub proof fn lemma_with_source_keeps(sources: Seq<Seq<char>>, added: Seq<char>, module_src: Seq<char>)
    requires
        sources.no_duplicates(),
        sources.contains(module_src),
    ensures
        with_source(sources, added).no_duplicates(),
        with_source(sources, added).contains(module_src),
        source_index(with_source(sources, added), module_src) == source_index(sources, module_src),
{
    let k = source_index(sources, module_src);
    let extended = with_source(sources, added);
    assert(extended[k] == module_src);
}

/// The handles of one module, in the order in which its imports first
/// refer to their source modules.
pub struct ImportIdents {
    entries: Vec<(String, Ident)>,
}

impl ImportIdents {
    /// The source modules that have a handle, in the order in which they
    /// got one.
    pub closed spec fn sources(&self) -> Seq<Seq<char>> {
        self.entries@.map_values(|e: (String, Ident)| e.0@)
    }

    /// No source module has two handles, and each handle is the one that
    /// belongs to its place.
    pub closed spec fn wf(&self) -> bool {
        &&& self.sources().no_duplicates()
        &&& forall|k: int|
            0 <= k < self.entries@.len() ==> (#[trigger] self.entries@[k]).1@ == handle_ident(
                k,
                self.entries@[k].0@,
            )
    }

    /// No handles.
    pub fn new() -> (r: Self)
        ensures
            r.wf(),
            r.sources() == Seq::<Seq<char>>::empty(),
    {
        let r = ImportIdents { entries: Vec::new() };
        assert(r.sources() =~= Seq::<Seq<char>>::empty());
        r
    }

    /// The number of handles.
    pub fn len(&self) -> (r: usize)
        ensures
            r == self.sources().len(),
    {
        self.entries.len()
    }

    /// The source module of the `index`-th handle.
    pub fn module_src(&self, index: usize) -> (r: &String)
        requires
            index < self.sources().len(),
        ensures
            r@ == self.sources()[index as int],
    {
        &self.entries[index].0
    }

    /// The `index`-th handle.
    pub fn ident(&self, index: usize) -> (r: Ident)
        requires
            self.wf(),
            index < self.sources().len(),
        ensures
            r@ == handle_ident(index as int, self.sources()[index as int]),
    {
        self.entries[index].1.clone()
    }

    /// Returns the handle of `module_src`, which is made if there is none
    /// yet.
    ///
    /// Fails, and changes nothing, if a handle has to be made and the
    /// pattern by which names are made does not compile, and only then.
    pub fn get_module_ident(&mut self, module_src: &String) -> (r: Result<Ident, TransformError>)
        requires
            old(self).wf(),
        ensures
            final(self).wf(),
            match r {
                Ok(ident) => {
                    &&& old(self).sources().contains(module_src@) || handles_can_be_named()
                    &&& final(self).sources() == with_source(old(self).sources(), module_src@)
                    &&& ident@ == handle_ident(
                        source_index(final(self).sources(), module_src@),
                        module_src@,
                    )
                },
                Err(e) => {
                    &&& e == TransformError::InternalInvariantViolation
                    &&& !old(self).sources().contains(module_src@)
                    &&& !handles_can_be_named()
                    &&& final(self).sources() == old(self).sources()
                },
            },
    {
        let ghost sources = self.sources();
        let mut k: usize = 0;
        while k < self.entries.len()
            invariant
                k <= self.entries.len(),
                self.wf(),
                *self == *old(self),
                sources == self.sources(),
                forall|j: int| 0 <= j < k ==> sources[j] != module_src@,
            decreases self.entries.len() - k,
        {
            if self.entries[k].0 == *module_src {
                assert(sources[k as int] == module_src@);
                assert(sources.contains(module_src@));
                proof {
                    lemma_source_index(sources, k as int);
                }
                return Ok(self.entries[k].1.clone());
            }
            k += 1;
        }
        assert(!sources.contains(module_src@));
        let index = self.entries.len();
        match module_ident(module_src, index) {
            Ok(ident) => {
                let handle = ident.clone();
                self.entries.push((module_src.clone(), ident));
                assert(self.sources() =~= sources.push(module_src@));
                proof {
                    lemma_source_index(self.sources(), index as int);
                }
                Ok(handle)
            },
            Err(e) => Err(e),
        }
    }
}

} // verus!
