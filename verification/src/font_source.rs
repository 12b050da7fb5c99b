//! The composite font source: a registry of fonts in memory that grows as
//! fonts are loaded, in front of a fixed list of external providers.
//!
//! Lookups ask the registry first and turn to the external providers only
//! when it has no answer. Enumerations add the two up, external results
//! first.
//!
//! Loading a font means parsing its bytes, and `font-kit` does that on every
//! insertion into its own in-memory source; its loader stops the program on
//! some fonts. The registry therefore keeps its entries itself, ordered as
//! `font-kit` orders them, and takes what the loader reported of a font as a
//! value: whoever calls the loader hands that in.

use crate::error::{loading_error, Error};
use font_kit::error::{FontLoadingError, SelectionError};
use font_kit::family_handle::FamilyHandle;
use font_kit::family_name::FamilyName;
use font_kit::handle::Handle;
use font_kit::properties::Properties;
use font_kit::source::Source;
use font_kit::sources::multi::MultiSource;
use piet::FontFamily;
use vstd::prelude::*;

verus! {

/// `font-kit`'s list of providers that are asked one after the other.
#[verifier::external_type_specification]
#[verifier::external_body]
pub struct ExMultiSource(MultiSource);

/// `font-kit`'s reference to a font resource.
#[verifier::external_type_specification]
#[verifier::external_body]
pub struct ExHandle(Handle);

/// `font-kit`'s references to the fonts of one family.
#[verifier::external_type_specification]
#[verifier::external_body]
pub struct ExFamilyHandle(FamilyHandle);

/// `font-kit`'s style properties to match fonts against.
#[verifier::external_type_specification]
#[verifier::external_body]
pub struct ExProperties(Properties);

/// `font-kit`'s family names: a title, or one of the generic names. Declared
/// with its variants.
#[verifier::external_type_specification]
pub struct ExFamilyName(FamilyName);

/// `font-kit`'s reasons why a lookup fails. Declared with its variants.
#[verifier::external_type_specification]
pub struct ExSelectionError(SelectionError);

/// A font family of the drawing interface.
#[verifier::external_type_specification]
#[verifier::external_body]
pub struct ExFontFamily(FontFamily);

/// What `Handle::from_memory` returns: the handle to the font at an index
/// in bytes held in memory.
pub uninterp spec fn memory_handle(data: Seq<u8>, font_index: u32) -> Handle;

/// What `FamilyHandle::fonts` returns: the handles of the family, in order.
pub uninterp spec fn family_fonts(family: FamilyHandle) -> Seq<Handle>;

/// The number of providers that a list of providers holds.
pub uninterp spec fn provider_count(source: MultiSource) -> nat;

/// What `FontFamily::name` returns: the name of the family.
pub uninterp spec fn family_name(family: FontFamily) -> Seq<char>;

/// The order of names: by the first character in which they differ, a name
/// before every name that it begins. Characters go by their code points.
pub open spec fn name_lt(a: Seq<char>, b: Seq<char>) -> bool
    decreases a.len(),
{
    if b.len() == 0 {
        false
    } else if a.len() == 0 {
        true
    } else if a[0] != b[0] {
        (a[0] as u32) < (b[0] as u32)
    } else {
        name_lt(a.drop_first(), b.drop_first())
    }
}

/// The views of a sequence of strings.
pub open spec fn names_of(strings: Seq<String>) -> Seq<Seq<char>> {
    Seq::new(strings.len(), |i: int| strings[i]@)
}

/// True when `whole` ends with `tail`.
pub open spec fn ends_with<T>(whole: Seq<T>, tail: Seq<T>) -> bool {
    tail.len() <= whole.len() && whole.subrange(whole.len() - tail.len(), whole.len() as int)
        == tail
}

/// Compares two strings with `<` of std, which orders strings by their
/// bytes; for UTF-8 that is the order of the code points.
#[verifier::external_body]
fn str_lt(a: &str, b: &str) -> (r: bool)
    ensures
        r == name_lt(a@, b@),
{
    a < b
}

/// Calls `Handle::from_memory` on a copy of `data`.
#[verifier::external_body]
fn handle_from_memory(data: &[u8], font_index: u32) -> (handle: Handle)
    ensures
        handle == memory_handle(data@, font_index),
{
    Handle::from_memory(std::sync::Arc::new(data.to_vec()), font_index)
}

/// Calls `clone` of `Handle`, which gives a handle to the same font.
#[verifier::external_body]
fn handle_clone(handle: &Handle) -> (r: Handle)
    ensures
        r == *handle,
{
    handle.clone()
}

/// Calls `FamilyHandle::from_font_handles`, which makes the family of the
/// given handles, in their order.
#[verifier::external_body]
fn family_from_handles(handles: Vec<Handle>) -> (family: FamilyHandle)
    ensures
        family_fonts(family) == handles@,
{
    FamilyHandle::from_font_handles(handles.into_iter())
}

/// Calls `FontFamily::new_unchecked`, which makes the family of the given
/// name without asking whether a font of that family exists.
#[verifier::external_body]
fn font_family_new_unchecked(name: &str) -> (family: FontFamily)
    ensures
        family_name(family) == name@,
{
    FontFamily::new_unchecked(name)
}

/// Calls `MultiSource::iter` and counts the providers that it goes through.
#[verifier::external_body]
fn multi_len(source: &MultiSource) -> (n: usize)
    ensures
        n == provider_count(*source),
{
    source.iter().count()
}

/// Calls `MultiSource::all_fonts`, which asks each provider in turn and adds
/// up the answers. The providers decide what comes back; where there is no
/// provider, that is the empty list.
#[verifier::external_body]
fn multi_all_fonts(source: &MultiSource) -> (r: Result<Vec<Handle>, SelectionError>)
    ensures
        provider_count(*source) == 0 ==> r is Ok,
        provider_count(*source) == 0 ==> r->Ok_0@.len() == 0,
{
    source.all_fonts()
}

/// Calls `MultiSource::all_families`, which asks each provider in turn and
/// adds up the answers. The providers decide what comes back; where there is
/// no provider, that is the empty list.
#[verifier::external_body]
fn multi_all_families(source: &MultiSource) -> (r: Result<Vec<String>, SelectionError>)
    ensures
        provider_count(*source) == 0 ==> r is Ok,
        provider_count(*source) == 0 ==> r->Ok_0@.len() == 0,
{
    source.all_families()
}

/// Calls `MultiSource::select_family_by_name`, which asks each provider in
/// turn. The providers decide what comes back; where there is no provider,
/// the call fails with `NotFound`.
#[verifier::external_body]
fn multi_select_family_by_name(source: &MultiSource, family_name: &str) -> (r: Result<
    FamilyHandle,
    SelectionError,
>)
    ensures
        provider_count(*source) == 0 ==> r is Err,
        provider_count(*source) == 0 ==> r->Err_0 == SelectionError::NotFound,
{
    source.select_family_by_name(family_name)
}

/// Calls `MultiSource::select_by_postscript_name`, which asks each provider
/// in turn. The providers decide what comes back; where there is no provider,
/// the call fails with `NotFound`.
#[verifier::external_body]
fn multi_select_by_postscript_name(source: &MultiSource, postscript_name: &str) -> (r: Result<
    Handle,
    SelectionError,
>)
    ensures
        provider_count(*source) == 0 ==> r is Err,
        provider_count(*source) == 0 ==> r->Err_0 == SelectionError::NotFound,
{
    source.select_by_postscript_name(postscript_name)
}

/// Calls `Source::select_family_by_generic_name` on the providers, which
/// looks the family up by the name that the generic name stands for. The
/// providers decide what comes back; where there is no provider, the call
/// fails with `NotFound`.
#[verifier::external_body]
fn multi_select_family_by_generic_name(source: &MultiSource, family_name: &FamilyName) -> (r:
    Result<FamilyHandle, SelectionError>)
    ensures
        provider_count(*source) == 0 ==> r is Err,
        provider_count(*source) == 0 ==> r->Err_0 == SelectionError::NotFound,
{
    source.select_family_by_generic_name(family_name)
}

/// The precedence rule of every lookup: the in-memory answer if there is
/// one; otherwise, and only then, the external providers are asked, and their
/// answer is the result.
pub fn in_memory_first<T, F: FnOnce() -> Result<T, SelectionError>>(
    in_memory: Result<T, SelectionError>,
    external: F,
) -> (r: Result<T, SelectionError>)
    requires
        in_memory is Err ==> external.requires(()),
    ensures
        in_memory is Ok ==> r == in_memory,
        in_memory is Err ==> external.ensures((), r),
{
    match in_memory {
        Ok(found) => Ok(found),
        Err(_) => external(),
    }
}

/// What an enumeration returns when the external providers gave `first` and
/// the in-memory collection answered `own`.
pub open spec fn enumerated<T>(
    first: Seq<T>,
    own: Result<Vec<T>, SelectionError>,
    r: Result<Vec<T>, SelectionError>,
) -> bool {
    match own {
        Ok(second) => r is Ok && r->Ok_0@ == first + second@,
        Err(e) => r == Err::<Vec<T>, SelectionError>(e),
    }
}

/// The rule of every enumeration: a failure of the external providers is the
/// result; otherwise the in-memory collection is asked, and its items follow
/// those of the external providers.
pub fn external_then_in_memory<T, F: FnOnce() -> Result<Vec<T>, SelectionError>>(
    external: Result<Vec<T>, SelectionError>,
    in_memory: F,
) -> (r: Result<Vec<T>, SelectionError>)
    requires
        external is Ok ==> in_memory.requires(()),
    ensures
        external matches Err(e) ==> r == Err::<Vec<T>, SelectionError>(e),
        external matches Ok(first) ==> exists|own: Result<Vec<T>, SelectionError>|
            in_memory.ensures((), own) && enumerated(first@, own, r),
{
    match external {
        Err(e) => Err(e),
        Ok(mut items) => {
            let ghost first = items@;
            let own = in_memory();
            match own {
                Err(e) => {
                    assert(enumerated(first, own, Err::<Vec<T>, SelectionError>(e)));
                    Err(e)
                },
                Ok(mut second) => {
                    items.append(&mut second);
                    assert(enumerated(first, own, Ok::<Vec<T>, SelectionError>(items)));
                    Ok(items)
                },
            }
        },
    }
}

/// What the loader reports of a font that it has loaded.
#[derive(Clone, Debug, PartialEq, Eq)]
pub struct LoadedFont {
    /// The name of the font's family.
    pub family_name: String,
    /// The PostScript name of the font, if it has one.
    pub postscript_name: Option<String>,
}

/// A font in the registry.
pub struct RegisteredFont {
    family_name: String,
    postscript_name: String,
    handle: Handle,
}

/// The mathematical value of a [`RegisteredFont`].
pub struct FontView {
    pub family_name: Seq<char>,
    pub postscript_name: Seq<char>,
    pub handle: Handle,
}

impl View for RegisteredFont {
    type V = FontView;

    closed spec fn view(&self) -> FontView {
        FontView {
            family_name: self.family_name@,
            postscript_name: self.postscript_name@,
            handle: self.handle,
        }
    }
}

/// The views of a sequence of registered fonts.
pub closed spec fn font_views(fonts: Seq<RegisteredFont>) -> Seq<FontView> {
    Seq::new(fonts.len(), |i: int| fonts[i]@)
}

/// Where a font of the family `family` is entered: before the first font
/// whose family name comes after `family`, at the end if there is none. Fonts
/// of one family thus stay in the order in which they were registered.
pub open spec fn insertion_point(fonts: Seq<FontView>, family: Seq<char>) -> int
    decreases fonts.len(),
{
    if fonts.len() == 0 || name_lt(family, fonts[0].family_name) {
        0
    } else {
        1 + insertion_point(fonts.drop_first(), family)
    }
}

/// The handles of all fonts.
pub open spec fn handles_of(fonts: Seq<FontView>) -> Seq<Handle> {
    Seq::new(fonts.len(), |i: int| fonts[i].handle)
}

/// The family names of all fonts, one for each font.
pub open spec fn family_names_of(fonts: Seq<FontView>) -> Seq<Seq<char>> {
    Seq::new(fonts.len(), |i: int| fonts[i].family_name)
}

/// The names of `names`, each once, in the order in which they first occur.
pub open spec fn distinct(names: Seq<Seq<char>>) -> Seq<Seq<char>>
    decreases names.len(),
{
    if names.len() == 0 {
        Seq::empty()
    } else {
        let before = distinct(names.drop_last());
        if before.contains(names.last()) {
            before
        } else {
            before.push(names.last())
        }
    }
}

/// The handles of the fonts of the family `family`, in order.
pub open spec fn handles_of_family(fonts: Seq<FontView>, family: Seq<char>) -> Seq<Handle>
    decreases fonts.len(),
{
    if fonts.len() == 0 {
        Seq::empty()
    } else {
        let before = handles_of_family(fonts.drop_last(), family);
        if fonts.last().family_name == family {
            before.push(fonts.last().handle)
        } else {
            before
        }
    }
}

/// The handle of the first font with the PostScript name `postscript_name`.
pub open spec fn first_with_postscript_name(
    fonts: Seq<FontView>,
    postscript_name: Seq<char>,
) -> Option<Handle>
    decreases fonts.len(),
{
    if fonts.len() == 0 {
        None
    } else if fonts[0].postscript_name == postscript_name {
        Some(fonts[0].handle)
    } else {
        first_with_postscript_name(fonts.drop_first(), postscript_name)
    }
}

/// The family is found exactly where a font of it is registered.
pub proof fn lemma_family_has_handles(fonts: Seq<FontView>, family: Seq<char>)
    ensures
        handles_of_family(fonts, family).len() > 0 <==> family_names_of(fonts).contains(family),
    decreases fonts.len(),
{
    if fonts.len() > 0 {
        let shorter = fonts.drop_last();
        lemma_family_has_handles(shorter, family);
        if family_names_of(fonts).contains(family) {
            let i = choose|i: int| 0 <= i < fonts.len() && family_names_of(fonts)[i] == family;
            if i < fonts.len() - 1 {
                assert(family_names_of(shorter)[i] == family);
            }
        }
        if family_names_of(shorter).contains(family) {
            let i = choose|i: int| 0 <= i < shorter.len() && family_names_of(shorter)[i] == family;
            assert(family_names_of(fonts)[i] == family);
        }
        if fonts.last().family_name == family {
            assert(family_names_of(fonts)[fonts.len() - 1] == family);
        }
    }
}

/// A font is found by its PostScript name exactly where one with that name
/// is registered.
pub proof fn lemma_postscript_name_is_found(fonts: Seq<FontView>, postscript_name: Seq<char>)
    ensures
        first_with_postscript_name(fonts, postscript_name) is Some <==> exists|i: int|
            0 <= i < fonts.len() && #[trigger] fonts[i].postscript_name == postscript_name,
    decreases fonts.len(),
{
    if fonts.len() > 0 {
        let rest = fonts.drop_first();
        lemma_postscript_name_is_found(rest, postscript_name);
        if fonts[0].postscript_name != postscript_name {
            if exists|i: int|
                0 <= i < fonts.len() && #[trigger] fonts[i].postscript_name == postscript_name {
                let i = choose|i: int|
                    0 <= i < fonts.len() && #[trigger] fonts[i].postscript_name
                        == postscript_name;
                assert(rest[i - 1].postscript_name == postscript_name);
            }
            if exists|i: int|
                0 <= i < rest.len() && #[trigger] rest[i].postscript_name == postscript_name {
                let i = choose|i: int|
                    0 <= i < rest.len() && #[trigger] rest[i].postscript_name == postscript_name;
                assert(fonts[i + 1].postscript_name == postscript_name);
            }
        }
    }
}

/// Listing each name once leaves no name out, adds none and repeats none.
pub proof fn lemma_distinct(names: Seq<Seq<char>>)
    ensures
        distinct(names).no_duplicates(),
        forall|name: Seq<char>| distinct(names).contains(name) <==> names.contains(name),
    decreases names.len(),
{
    if names.len() > 0 {
        let shorter = names.drop_last();
        let before = distinct(shorter);
        lemma_distinct(shorter);
        assert forall|name: Seq<char>| distinct(names).contains(name) <==> names.contains(
            name,
        ) by {
            if names.contains(name) {
                let i = choose|i: int| 0 <= i < names.len() && names[i] == name;
                if i < names.len() - 1 {
                    assert(shorter[i] == name);
                    assert(shorter.contains(name));
                    assert(before.contains(name));
                    let j = choose|j: int| 0 <= j < before.len() && before[j] == name;
                    assert(distinct(names)[j] == name);
                } else if before.contains(name) {
                } else {
                    assert(distinct(names)[before.len() as int] == name);
                }
            }
            if distinct(names).contains(name) {
                let j = choose|j: int| 0 <= j < distinct(names).len() && distinct(names)[j] == name;
                if j < before.len() {
                    assert(before[j] == name);
                    assert(before.contains(name));
                    assert(shorter.contains(name));
                    let i = choose|i: int| 0 <= i < shorter.len() && shorter[i] == name;
                    assert(names[i] == name);
                } else {
                    assert(names[names.len() - 1] == name);
                }
            }
        }
    }
}

/// The place to enter a font lies within the list.
pub proof fn lemma_insertion_point_in_range(fonts: Seq<FontView>, family: Seq<char>)
    ensures
        0 <= insertion_point(fonts, family) <= fonts.len(),
    decreases fonts.len(),
{
    if fonts.len() > 0 && !name_lt(family, fonts[0].family_name) {
        lemma_insertion_point_in_range(fonts.drop_first(), family);
    }
}

/// A registry of fonts in memory in front of a list of external providers.
pub struct FontSource {
    fonts: Vec<RegisteredFont>,
    multi_source: MultiSource,
}

impl FontSource {
    /// The fonts registered in memory, in the order in which they are kept:
    /// by family name, and within a family by the time of registration.
    pub closed spec fn fonts(&self) -> Seq<FontView> {
        font_views(self.fonts@)
    }

    /// The external providers.
    pub closed spec fn external(&self) -> MultiSource {
        self.multi_source
    }

    /// The number of external providers.
    pub open spec fn providers(&self) -> nat {
        provider_count(self.external())
    }

    /// The family names under which fonts are registered in memory.
    pub open spec fn families(&self) -> Set<Seq<char>> {
        Set::new(|name: Seq<char>| family_names_of(self.fonts()).contains(name))
    }

    /// The PostScript names under which fonts are registered in memory.
    pub open spec fn postscript_names(&self) -> Set<Seq<char>> {
        Set::new(
            |name: Seq<char>|
                exists|i: int|
                    0 <= i < self.fonts().len() && #[trigger] self.fonts()[i].postscript_name
                        == name,
        )
    }

    /// The handles of the fonts registered in memory.
    pub open spec fn own_handles(&self) -> Seq<Handle> {
        handles_of(self.fonts())
    }

    /// The family names registered in memory, each once.
    pub open spec fn own_family_list(&self) -> Seq<Seq<char>> {
        distinct(family_names_of(self.fonts()))
    }

    /// The registry's answer to a lookup by family name: the fonts of that
    /// family, or `NotFound` if there is none.
    pub open spec fn own_family(&self, family_name: Seq<char>, r: Result<
        FamilyHandle,
        SelectionError,
    >) -> bool {
        if self.families().contains(family_name) {
            r is Ok && family_fonts(r->Ok_0) == handles_of_family(self.fonts(), family_name)
        } else {
            r == Err::<FamilyHandle, SelectionError>(SelectionError::NotFound)
        }
    }

    /// The registry's answer to a lookup by PostScript name: the first font
    /// of that name, or `NotFound` if there is none.
    pub open spec fn own_font(&self, postscript_name: Seq<char>) -> Result<Handle, SelectionError> {
        match first_with_postscript_name(self.fonts(), postscript_name) {
            Some(handle) => Ok(handle),
            None => Err(SelectionError::NotFound),
        }
    }

    /// The effect of registering a font that the loader reported as `font`
    /// under `handle`: it is entered at its place if it has a PostScript
    /// name, and not at all otherwise. The external providers stay as they
    /// are.
    pub open spec fn registers(&self, font: LoadedFont, handle: Handle, after: FontSource) -> bool {
        &&& after.external() == self.external()
        &&& match font.postscript_name {
            Some(postscript_name) => after.fonts() == self.fonts().insert(
                insertion_point(self.fonts(), font.family_name@),
                FontView {
                    family_name: font.family_name@,
                    postscript_name: postscript_name@,
                    handle,
                },
            ),
            None => after.fonts() == self.fonts(),
        }
    }

    /// What [`FontSource::load_font`] returns and leaves behind, for the
    /// bytes `data` of which the loader reported `loaded`.
    pub open spec fn load_font_outcome(
        &self,
        data: Seq<u8>,
        loaded: Result<LoadedFont, FontLoadingError>,
        r: Result<FontFamily, Error>,
        after: FontSource,
    ) -> bool {
        match loaded {
            Ok(font) => {
                &&& r is Ok
                &&& family_name(r->Ok_0) == font.family_name@
                &&& self.registers(font, memory_handle(data, 0), after)
                &&& font.postscript_name is Some ==> {
                    &&& after.fonts().len() == self.fonts().len() + 1
                    &&& after.families().contains(font.family_name@)
                    &&& after.postscript_names().contains(font.postscript_name->0@)
                    &&& forall|i: int|
                        0 <= i < self.fonts().len() ==> after.fonts().contains(
                            #[trigger] self.fonts()[i],
                        )
                }
            },
            Err(failure) => {
                &&& r == Err::<FontFamily, Error>(loading_error(failure))
                &&& after == *self
            },
        }
    }

    /// What [`FontSource::select_family_by_name`] returns: the registry's
    /// answer where a font is registered under the name; otherwise the
    /// answer of the external providers, which without providers is
    /// `NotFound`.
    pub open spec fn family_by_name_outcome(
        &self,
        family_name: Seq<char>,
        r: Result<FamilyHandle, SelectionError>,
    ) -> bool {
        &&& self.families().contains(family_name) ==> self.own_family(family_name, r)
        &&& self.providers() == 0 ==> self.own_family(family_name, r)
    }

    /// What [`FontSource::select_by_postscript_name`] returns: the
    /// registry's answer where a font is registered under the name;
    /// otherwise the answer of the external providers, which without
    /// providers is `NotFound`.
    pub open spec fn font_by_postscript_name_outcome(
        &self,
        postscript_name: Seq<char>,
        r: Result<Handle, SelectionError>,
    ) -> bool {
        &&& self.postscript_names().contains(postscript_name) ==> r == self.own_font(
            postscript_name,
        )
        &&& self.providers() == 0 ==> r == self.own_font(postscript_name)
    }

    /// What [`FontSource::all_families`] returns: where the external
    /// providers answer, their names followed by the names registered in
    /// memory, each of those once; without providers, those alone.
    pub open spec fn all_families_outcome(&self, r: Result<Vec<String>, SelectionError>) -> bool {
        &&& r matches Ok(names) ==> ends_with(names_of(names@), self.own_family_list())
        &&& self.providers() == 0 ==> r is Ok && names_of(r->Ok_0@) == self.own_family_list()
    }

    /// A source with no font in memory, in front of the given providers.
    pub fn new(multi_source: MultiSource) -> (source: Self)
        ensures
            source.fonts() == Seq::<FontView>::empty(),
            source.external() == multi_source,
    {
        let source = FontSource { fonts: Vec::new(), multi_source };
        assert(source.fonts() =~= Seq::<FontView>::empty());
        source
    }

    /// The external providers.
    pub fn external_providers(&self) -> (providers: &MultiSource)
        ensures
            *providers == self.external(),
    {
        &self.multi_source
    }

    /// The number of external providers.
    pub fn provider_count(&self) -> (n: usize)
        ensures
            n == self.providers(),
    {
        multi_len(&self.multi_source)
    }

    /// Registers the font in `data`, of which the loader reported `loaded`,
    /// and returns its family.
    ///
    /// A font that loaded is entered under its family name and its
    /// PostScript name, with a handle to a copy of `data`, if it has a
    /// PostScript name; its family is returned in either case. A failure of
    /// the loader leaves the source as it was and is reported as
    /// [`loading_error`] says.
    pub fn load_font(&mut self, data: &[u8], loaded: Result<LoadedFont, FontLoadingError>) -> (r:
        Result<FontFamily, Error>)
        ensures
            old(self).load_font_outcome(data@, loaded, r, *final(self)),
    {
        match loaded {
            Ok(font) => {
                let family = font_family_new_unchecked(font.family_name.as_str());
                if let Some(postscript_name) = font.postscript_name {
                    let handle = handle_from_memory(data, 0);
                    let at = self.place_of(font.family_name.as_str());
                    let ghost entered = FontView {
                        family_name: font.family_name@,
                        postscript_name: postscript_name@,
                        handle,
                    };
                    self.fonts.insert(
                        at,
                        RegisteredFont { family_name: font.family_name, postscript_name, handle },
                    );
                    assert(self.fonts() =~= old(self).fonts().insert(at as int, entered));
                    proof {
                        lemma_entry_is_added(old(self).fonts(), at as int, entered);
                        assert(self.fonts()[at as int].postscript_name == entered.postscript_name);
                    }
                }
                Ok(family)
            },
            Err(failure) => Err(Error::from_loading(failure)),
        }
    }

    /// The place at which a font of the family `family` is entered.
    fn place_of(&self, family: &str) -> (at: usize)
        ensures
            at == insertion_point(self.fonts(), family@),
            at <= self.fonts@.len(),
    {
        let mut at: usize = 0;
        proof {
            lemma_insertion_point_in_range(self.fonts(), family@);
            assert(self.fonts().skip(0) =~= self.fonts());
        }
        while at < self.fonts.len() && !str_lt(family, self.fonts[at].family_name.as_str())
            invariant
                at <= self.fonts@.len(),
                insertion_point(self.fonts(), family@) == at + insertion_point(
                    self.fonts().skip(at as int),
                    family@,
                ),
            decreases self.fonts@.len() - at,
        {
            proof {
                let rest = self.fonts().skip(at as int);
                assert(rest[0] == self.fonts()[at as int]);
                assert(rest.drop_first() =~= self.fonts().skip(at + 1));
            }
            at += 1;
        }
        proof {
            let rest = self.fonts().skip(at as int);
            if at < self.fonts@.len() {
                assert(rest[0] == self.fonts()[at as int]);
            }
        }
        at
    }

    /// The fonts registered in memory.
    pub fn in_memory_fonts(&self) -> (handles: Vec<Handle>)
        ensures
            handles@ == self.own_handles(),
    {
        let mut handles: Vec<Handle> = Vec::new();
        let mut i: usize = 0;
        while i < self.fonts.len()
            invariant
                i <= self.fonts@.len(),
                handles@ == handles_of(self.fonts().take(i as int)),
            decreases self.fonts@.len() - i,
        {
            handles.push(handle_clone(&self.fonts[i].handle));
            i += 1;
            assert(handles@ =~= handles_of(self.fonts().take(i as int)));
        }
        assert(self.fonts().take(i as int) =~= self.fonts());
        handles
    }

    /// The family names registered in memory, each once.
    pub fn in_memory_families(&self) -> (names: Vec<String>)
        ensures
            names_of(names@) == self.own_family_list(),
    {
        let mut names: Vec<String> = Vec::new();
        let mut i: usize = 0;
        let ghost all = family_names_of(self.fonts());
        assert(all.take(0) =~= Seq::<Seq<char>>::empty());
        assert(names_of(names@) =~= distinct(all.take(0)));
        while i < self.fonts.len()
            invariant
                i <= self.fonts@.len(),
                all == family_names_of(self.fonts()),
                names_of(names@) == distinct(all.take(i as int)),
            decreases self.fonts@.len() - i,
        {
            let ghost before = names_of(names@);
            let mut known = false;
            let mut j: usize = 0;
            while j < names.len()
                invariant
                    j <= names@.len(),
                    i < self.fonts@.len(),
                    known <==> exists|k: int|
                        0 <= k < j && #[trigger] names@[k]@ == self.fonts@[i as int].family_name@,
                decreases names@.len() - j,
            {
                if names[j] == self.fonts[i].family_name {
                    known = true;
                }
                j += 1;
            }
            proof {
                let name = self.fonts@[i as int].family_name@;
                assert(all.take(i + 1).drop_last() =~= all.take(i as int));
                assert(all.take(i + 1).last() == name);
                if known {
                    let k = choose|k: int|
                        0 <= k < names@.len() && #[trigger] names@[k]@ == name;
                    assert(before[k] == name);
                    assert(before.contains(name));
                } else {
                    if before.contains(name) {
                        let k = choose|k: int| 0 <= k < before.len() && before[k] == name;
                        assert(names@[k]@ == name);
                    }
                }
            }
            if !known {
                names.push(self.fonts[i].family_name.clone());
                assert(names_of(names@) =~= before.push(self.fonts@[i as int].family_name@));
            }
            i += 1;
        }
        assert(all.take(i as int) =~= all);
        names
    }

    /// The fonts of the family called `family_name` that are registered in
    /// memory.
    pub fn in_memory_family(&self, family_name: &str) -> (r: Result<FamilyHandle, SelectionError>)
        ensures
            self.own_family(family_name@, r),
            r is Ok <==> self.families().contains(family_name@),
    {
        let wanted = family_name.to_owned();
        let mut handles: Vec<Handle> = Vec::new();
        let mut i: usize = 0;
        while i < self.fonts.len()
            invariant
                i <= self.fonts@.len(),
                wanted@ == family_name@,
                handles@ == handles_of_family(self.fonts().take(i as int), family_name@),
            decreases self.fonts@.len() - i,
        {
            proof {
                assert(self.fonts().take(i + 1).drop_last() =~= self.fonts().take(i as int));
                assert(self.fonts().take(i + 1).last() == self.fonts()[i as int]);
            }
            if self.fonts[i].family_name == wanted {
                handles.push(handle_clone(&self.fonts[i].handle));
            }
            i += 1;
        }
        proof {
            assert(self.fonts().take(i as int) =~= self.fonts());
            lemma_family_has_handles(self.fonts(), family_name@);
        }
        if handles.len() == 0 {
            Err(SelectionError::NotFound)
        } else {
            Ok(family_from_handles(handles))
        }
    }

    /// The first font with the PostScript name `postscript_name` that is
    /// registered in memory.
    pub fn in_memory_font(&self, postscript_name: &str) -> (r: Result<Handle, SelectionError>)
        ensures
            r == self.own_font(postscript_name@),
            r is Ok <==> self.postscript_names().contains(postscript_name@),
    {
        let wanted = postscript_name.to_owned();
        let mut i: usize = 0;
        proof {
            assert(self.fonts().skip(0) =~= self.fonts());
            lemma_postscript_name_is_found(self.fonts(), postscript_name@);
        }
        while i < self.fonts.len()
            invariant
                i <= self.fonts@.len(),
                wanted@ == postscript_name@,
                first_with_postscript_name(self.fonts(), postscript_name@)
                    == first_with_postscript_name(self.fonts().skip(i as int), postscript_name@),
            decreases self.fonts@.len() - i,
        {
            proof {
                let rest = self.fonts().skip(i as int);
                assert(rest[0] == self.fonts()[i as int]);
                assert(rest.drop_first() =~= self.fonts().skip(i + 1));
            }
            if self.fonts[i].postscript_name == wanted {
                return Ok(handle_clone(&self.fonts[i].handle));
            }
            i += 1;
        }
        Err(SelectionError::NotFound)
    }

    /// Whether a font is registered in memory under the family name.
    pub fn has_family(&self, family_name: &str) -> (r: bool)
        ensures
            r == self.families().contains(family_name@),
    {
        self.in_memory_family(family_name).is_ok()
    }

    /// Whether a font is registered in memory under the PostScript name.
    pub fn has_postscript_name(&self, postscript_name: &str) -> (r: bool)
        ensures
            r == self.postscript_names().contains(postscript_name@),
    {
        self.in_memory_font(postscript_name).is_ok()
    }

    /// The family called `name`, if a lookup by that name finds one: one
    /// registered in memory, or one that the external providers know.
    pub fn font_family(&self, name: &str) -> (r: Option<FontFamily>)
        ensures
            self.families().contains(name@) ==> r is Some,
            self.providers() == 0 ==> (r is Some <==> self.families().contains(name@)),
            r matches Some(family) ==> family_name(family) == name@,
    {
        family_of_lookup(self.select_family_by_name(name), name)
    }

    /// All fonts: those of the external providers, then those in memory.
    /// Fails where the external providers fail; without providers it
    /// succeeds and gives the fonts in memory.
    pub fn all_fonts(&self) -> (r: Result<Vec<Handle>, SelectionError>)
        ensures
            r matches Ok(handles) ==> ends_with(handles@, self.own_handles()),
            self.providers() == 0 ==> r is Ok && r->Ok_0@ == self.own_handles(),
    {
        let own = || -> (own: Result<Vec<Handle>, SelectionError>)
            ensures
                own matches Ok(handles) && handles@ == self.own_handles(),
            { Ok(self.in_memory_fonts()) };
        let external = multi_all_fonts(&self.multi_source);
        let ghost first = external;
        let r = external_then_in_memory(external, own);
        proof {
            if r is Ok {
                let handles = r->Ok_0;
                let tail = self.own_handles();
                assert(handles@.subrange(handles@.len() - tail.len(), handles@.len() as int)
                    =~= tail);
            }
            if provider_count(self.multi_source) == 0 {
                assert(first->Ok_0@ + self.own_handles() =~= self.own_handles());
            }
        }
        r
    }

    /// All family names: those of the external providers, then those
    /// registered in memory. Fails where the external providers fail;
    /// without providers it succeeds and gives the names registered in
    /// memory.
    pub fn all_families(&self) -> (r: Result<Vec<String>, SelectionError>)
        ensures
            self.all_families_outcome(r),
    {
        let own = || -> (own: Result<Vec<String>, SelectionError>)
            ensures
                own matches Ok(names) && names_of(names@) == self.own_family_list(),
            { Ok(self.in_memory_families()) };
        let external = multi_all_families(&self.multi_source);
        let ghost first = external;
        let r = external_then_in_memory(external, own);
        proof {
            if r is Ok {
                let names = r->Ok_0;
                let answer = choose|answer: Result<Vec<String>, SelectionError>|
                    own.ensures((), answer) && enumerated(first->Ok_0@, answer, r);
                let second = answer->Ok_0;
                let tail = names_of(second@);
                assert(names@ == first->Ok_0@ + second@);
                assert(names_of(names@).subrange(
                    names_of(names@).len() - tail.len(),
                    names_of(names@).len() as int,
                ) =~= tail);
                if provider_count(self.multi_source) == 0 {
                    assert(names@ =~= second@);
                }
            }
        }
        r
    }

    /// The fonts of the family called `family_name`: those registered in
    /// memory under that name if there are any, otherwise what the external
    /// providers find.
    pub fn select_family_by_name(&self, family_name: &str) -> (r: Result<
        FamilyHandle,
        SelectionError,
    >)
        ensures
            self.family_by_name_outcome(family_name@, r),
            r is Err ==> !self.families().contains(family_name@),
    {
        let external = || -> (external: Result<FamilyHandle, SelectionError>)
            ensures
                provider_count(self.multi_source) == 0 ==> external == Err::<
                    FamilyHandle,
                    SelectionError,
                >(SelectionError::NotFound),
            { multi_select_family_by_name(&self.multi_source, family_name) };
        in_memory_first(self.in_memory_family(family_name), external)
    }

    /// The font with the PostScript name `postscript_name`: the one
    /// registered in memory under that name if there is one, otherwise what
    /// the external providers find.
    pub fn select_by_postscript_name(&self, postscript_name: &str) -> (r: Result<
        Handle,
        SelectionError,
    >)
        ensures
            self.font_by_postscript_name_outcome(postscript_name@, r),
            r is Err ==> !self.postscript_names().contains(postscript_name@),
    {
        let external = || -> (external: Result<Handle, SelectionError>)
            ensures
                provider_count(self.multi_source) == 0 ==> external == Err::<
                    Handle,
                    SelectionError,
                >(SelectionError::NotFound),
            { multi_select_by_postscript_name(&self.multi_source, postscript_name) };
        in_memory_first(self.in_memory_font(postscript_name), external)
    }

    /// The fonts of the family that `family_name` stands for. A title is
    /// looked up as [`FontSource::select_family_by_name`] looks up a name.
    /// For a generic name, which family it stands for is the platform's to
    /// say: `in_memory` is called for the fonts of that family in memory,
    /// and the external providers are asked if it finds none.
    pub fn select_family_by_generic_name<F: FnOnce() -> Result<FamilyHandle, SelectionError>>(
        &self,
        family_name: &FamilyName,
        in_memory: F,
    ) -> (r: Result<FamilyHandle, SelectionError>)
        requires
            !(family_name is Title) ==> in_memory.requires(()),
        ensures
            family_name matches FamilyName::Title(title) ==> self.family_by_name_outcome(title@, r),
            family_name matches FamilyName::Title(title) ==> (r is Err ==> !self.families().contains(
                title@,
            )),
            !(family_name is Title) ==> exists|own: Result<FamilyHandle, SelectionError>|
                #[trigger] in_memory.ensures((), own) && (own is Ok ==> r == own) && (own is Err
                    && self.providers() == 0 ==> r == Err::<FamilyHandle, SelectionError>(
                    SelectionError::NotFound,
                )),
    {
        match family_name {
            FamilyName::Title(title) => self.select_family_by_name(title.as_str()),
            _ => {
                let external = || -> (external: Result<FamilyHandle, SelectionError>)
                    ensures
                        provider_count(self.multi_source) == 0 ==> external == Err::<
                            FamilyHandle,
                            SelectionError,
                        >(SelectionError::NotFound),
                    { multi_select_family_by_generic_name(&self.multi_source, family_name) };
                let own = in_memory();
                in_memory_first(own, external)
            },
        }
    }

    /// The font that matches best: the match among the fonts in memory if
    /// `in_memory` found one, otherwise what `external` finds with the
    /// external providers. Matching loads fonts, so both are handed in.
    pub fn select_best_match<F: FnOnce() -> Result<Handle, SelectionError>>(
        &self,
        in_memory: Result<Handle, SelectionError>,
        external: F,
    ) -> (r: Result<Handle, SelectionError>)
        requires
            in_memory is Err ==> external.requires(()),
        ensures
            in_memory is Ok ==> r == in_memory,
            in_memory is Err ==> external.ensures((), r),
    {
        in_memory_first(in_memory, external)
    }

    /// The properties of the fonts of a family: those that `in_memory`
    /// found by loading them if it succeeded, otherwise what `external` finds
    /// with the external providers. Describing loads fonts, so both are
    /// handed in.
    pub fn select_descriptions_in_family<F: FnOnce() -> Result<Vec<Properties>, SelectionError>>(
        &self,
        in_memory: Result<Vec<Properties>, SelectionError>,
        external: F,
    ) -> (r: Result<Vec<Properties>, SelectionError>)
        requires
            in_memory is Err ==> external.requires(()),
        ensures
            in_memory is Ok ==> r == in_memory,
            in_memory is Err ==> external.ensures((), r),
    {
        in_memory_first(in_memory, external)
    }
}

/// The family of the name `name` if the lookup `found` a family, none if it
/// failed.
pub fn family_of_lookup(found: Result<FamilyHandle, SelectionError>, name: &str) -> (r: Option<
    FontFamily,
>)
    ensures
        r is Some <==> found is Ok,
        r matches Some(family) ==> family_name(family) == name@,
{
    match found {
        Ok(_) => Some(font_family_new_unchecked(name)),
        Err(_) => None,
    }
}

/// Entering a font keeps every font that was there and adds the one: the
/// list grows by one, and every family name and PostScript name that was
/// registered still is.
pub proof fn lemma_entry_is_added(fonts: Seq<FontView>, at: int, entered: FontView)
    requires
        0 <= at <= fonts.len(),
    ensures
        fonts.insert(at, entered).len() == fonts.len() + 1,
        fonts.insert(at, entered)[at] == entered,
        family_names_of(fonts.insert(at, entered)).contains(entered.family_name),
        forall|name: Seq<char>|
            family_names_of(fonts).contains(name) ==> family_names_of(
                fonts.insert(at, entered),
            ).contains(name),
        forall|i: int|
            0 <= i < fonts.len() ==> fonts.insert(at, entered).contains(#[trigger] fonts[i]),
{
    let after = fonts.insert(at, entered);
    assert(family_names_of(after)[at] == entered.family_name);
    assert forall|name: Seq<char>| family_names_of(fonts).contains(name) implies family_names_of(
        after,
    ).contains(name) by {
        let i = choose|i: int| 0 <= i < fonts.len() && family_names_of(fonts)[i] == name;
        if i < at {
            assert(family_names_of(after)[i] == name);
        } else {
            assert(family_names_of(after)[i + 1] == name);
        }
    }
    assert forall|i: int| 0 <= i < fonts.len() implies after.contains(#[trigger] fonts[i]) by {
        if i < at {
            assert(after[i] == fonts[i]);
        } else {
            assert(after[i + 1] == fonts[i]);
        }
    }
}

/// A family registered in memory shadows the external providers: once a font
/// with a PostScript name is registered, a lookup by its family name
/// succeeds with the fonts of that family in memory, the new one among them,
/// whatever the external providers hold; and every list of all families ends
/// with the names registered in memory, the new family among them.
pub proof fn lemma_registered_family_shadows(
    before: FontSource,
    font: LoadedFont,
    handle: Handle,
    after: FontSource,
    found: Result<FamilyHandle, SelectionError>,
    listed: Result<Vec<String>, SelectionError>,
)
    requires
        before.registers(font, handle, after),
        font.postscript_name is Some,
        after.family_by_name_outcome(font.family_name@, found),
        after.all_families_outcome(listed),
    ensures
        after.families().contains(font.family_name@),
        after.fonts().len() == before.fonts().len() + 1,
        found is Ok,
        family_fonts(found->Ok_0) == handles_of_family(after.fonts(), font.family_name@),
        family_fonts(found->Ok_0).len() > 0,
        listed matches Ok(names) ==> names_of(names@).contains(font.family_name@),
{
    let family = font.family_name@;
    let at = insertion_point(before.fonts(), family);
    let entered = FontView {
        family_name: family,
        postscript_name: font.postscript_name->0@,
        handle,
    };
    lemma_insertion_point_in_range(before.fonts(), family);
    lemma_entry_is_added(before.fonts(), at, entered);
    lemma_family_has_handles(after.fonts(), family);
    if listed is Ok {
        let names = names_of(listed->Ok_0@);
        let own = after.own_family_list();
        lemma_distinct(family_names_of(after.fonts()));
        assert(own.contains(family));
        let i = choose|i: int| 0 <= i < own.len() && own[i] == family;
        let tail = names.subrange(names.len() - own.len(), names.len() as int);
        assert(tail[i] == family);
        assert(names[names.len() - own.len() + i] == family);
    }
}

/// A font registered in memory is found by its PostScript name as well,
/// whatever the external providers hold.
pub proof fn lemma_registered_font_shadows(
    before: FontSource,
    font: LoadedFont,
    handle: Handle,
    after: FontSource,
    found: Result<Handle, SelectionError>,
)
    requires
        before.registers(font, handle, after),
        font.postscript_name is Some,
        after.font_by_postscript_name_outcome(font.postscript_name->0@, found),
    ensures
        after.postscript_names().contains(font.postscript_name->0@),
        found is Ok,
        found == after.own_font(font.postscript_name->0@),
{
    let family = font.family_name@;
    let at = insertion_point(before.fonts(), family);
    lemma_insertion_point_in_range(before.fonts(), family);
    assert(after.fonts()[at].postscript_name == font.postscript_name->0@);
    lemma_postscript_name_is_found(after.fonts(), font.postscript_name->0@);
}

/// An enumeration leaves nothing out: where it succeeds, every item of the
/// external providers and every item of the in-memory collection is in the
/// result, so a family that both hold is listed for both.
pub proof fn lemma_enumeration_keeps_both<T>(
    first: Seq<T>,
    own: Result<Vec<T>, SelectionError>,
    r: Result<Vec<T>, SelectionError>,
    item: T,
)
    requires
        enumerated(first, own, r),
        r is Ok,
    ensures
        own is Ok,
        r->Ok_0@.len() == first.len() + own->Ok_0@.len(),
        first.contains(item) ==> r->Ok_0@.contains(item),
        own->Ok_0@.contains(item) ==> r->Ok_0@.contains(item),
{
    let second = own->Ok_0@;
    let all = r->Ok_0@;
    if first.contains(item) {
        let i = choose|i: int| 0 <= i < first.len() && first[i] == item;
        assert(all[i] == item);
    }
    if second.contains(item) {
        let j = choose|j: int| 0 <= j < second.len() && second[j] == item;
        assert(all[first.len() + j] == item);
    }
}

/// Registering never loses a registration: every font that was registered
/// before a font is loaded is registered after it, so of two fonts loaded one
/// after the other both are.
pub proof fn lemma_registrations_accumulate(
    before: FontSource,
    first: LoadedFont,
    first_handle: Handle,
    between: FontSource,
    second: LoadedFont,
    second_handle: Handle,
    after: FontSource,
)
    requires
        before.registers(first, first_handle, between),
        between.registers(second, second_handle, after),
    ensures
        before.families().subset_of(after.families()),
        forall|i: int|
            0 <= i < before.fonts().len() ==> after.fonts().contains(#[trigger] before.fonts()[i]),
        first.postscript_name is Some ==> after.families().contains(first.family_name@),
        second.postscript_name is Some ==> after.families().contains(second.family_name@),
        after.external() == before.external(),
{
    lemma_insertion_point_in_range(before.fonts(), first.family_name@);
    lemma_insertion_point_in_range(between.fonts(), second.family_name@);
    if first.postscript_name is Some {
        lemma_entry_is_added(
            before.fonts(),
            insertion_point(before.fonts(), first.family_name@),
            FontView {
                family_name: first.family_name@,
                postscript_name: first.postscript_name->0@,
                handle: first_handle,
            },
        );
    }
    if second.postscript_name is Some {
        lemma_entry_is_added(
            between.fonts(),
            insertion_point(between.fonts(), second.family_name@),
            FontView {
                family_name: second.family_name@,
                postscript_name: second.postscript_name->0@,
                handle: second_handle,
            },
        );
    }
    assert forall|i: int| 0 <= i < before.fonts().len() implies after.fonts().contains(
        #[trigger] before.fonts()[i],
    ) by {
        assert(between.fonts().contains(before.fonts()[i]));
        let j = choose|j: int|
            0 <= j < between.fonts().len() && between.fonts()[j] == before.fonts()[i];
        assert(after.fonts().contains(between.fonts()[j]));
    }
}

} // verus!
