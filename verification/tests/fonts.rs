use font_kit::error::{FontLoadingError, SelectionError};
use font_kit::family_handle::FamilyHandle;
use font_kit::family_name::FamilyName;
use font_kit::font::Font;
use font_kit::handle::Handle;
use font_kit::properties::Properties;
use font_kit::source::Source;
use font_kit::sources::mem::MemSource;
use font_kit::sources::multi::MultiSource;
use piet::FontFamily;
use piet_pathfinder::error::Error;
use piet_pathfinder::font_source::{
    external_then_in_memory, family_of_lookup, in_memory_first, FontSource, LoadedFont,
};
use std::any::Any;
use std::cell::Cell;
use std::path::PathBuf;
use std::sync::Arc;

/// A bitmap font of one glyph, family "Tiny", PostScript name "Tiny-Regular".
const TINY: &str = "STARTFONT 2.1
FONT -Misc-Tiny-Medium-R-Normal--8-80-75-75-C-80-ISO10646-1
SIZE 8 75 75
FONTBOUNDINGBOX 8 8 0 0
STARTPROPERTIES 4
FAMILY_NAME \"Tiny\"
FONT_ASCENT 8
FONT_DESCENT 0
_DEC_DEVICE_FONTNAMES \"PS=Tiny-Regular\"
ENDPROPERTIES
CHARS 1
STARTCHAR A
ENCODING 65
SWIDTH 1000 0
DWIDTH 8 0
BBX 8 8 0 0
BITMAP
18
24
42
42
7E
42
42
00
ENDCHAR
ENDFONT
";

/// The same glyph under family "Other", PostScript name "Other-Regular".
const OTHER: &str = "STARTFONT 2.1
FONT -Misc-Other-Medium-R-Normal--8-80-75-75-C-80-ISO10646-1
SIZE 8 75 75
FONTBOUNDINGBOX 8 8 0 0
STARTPROPERTIES 4
FAMILY_NAME \"Other\"
FONT_ASCENT 8
FONT_DESCENT 0
_DEC_DEVICE_FONTNAMES \"PS=Other-Regular\"
ENDPROPERTIES
CHARS 1
STARTCHAR A
ENCODING 65
SWIDTH 1000 0
DWIDTH 8 0
BBX 8 8 0 0
BITMAP
18
24
42
42
7E
42
42
00
ENDCHAR
ENDFONT
";

/// A font of family "Nameless" that has no PostScript name.
const NAMELESS: &str = "STARTFONT 2.1
FONT -Misc-Nameless-Medium-R-Normal--8-80-75-75-C-80-ISO10646-1
SIZE 8 75 75
FONTBOUNDINGBOX 8 8 0 0
STARTPROPERTIES 3
FAMILY_NAME \"Nameless\"
FONT_ASCENT 8
FONT_DESCENT 0
ENDPROPERTIES
CHARS 1
STARTCHAR A
ENCODING 65
SWIDTH 1000 0
DWIDTH 8 0
BBX 8 8 0 0
BITMAP
18
24
42
42
7E
42
42
00
ENDCHAR
ENDFONT
";

/// An external provider with one font on disk for each of its families.
struct Provider {
    families: Vec<&'static str>,
}

fn disk_handle(family: &str) -> Handle {
    Handle::from_path(PathBuf::from(format!("/provider/{}.ttf", family)), 0)
}

impl Source for Provider {
    fn all_fonts(&self) -> Result<Vec<Handle>, SelectionError> {
        Ok(self.families.iter().map(|f| disk_handle(f)).collect())
    }

    fn all_families(&self) -> Result<Vec<String>, SelectionError> {
        Ok(self.families.iter().map(|f| f.to_string()).collect())
    }

    fn select_family_by_name(&self, family_name: &str) -> Result<FamilyHandle, SelectionError> {
        if self.families.iter().any(|f| *f == family_name) {
            Ok(FamilyHandle::from_font_handles(std::iter::once(disk_handle(family_name))))
        } else {
            Err(SelectionError::NotFound)
        }
    }

    fn select_by_postscript_name(&self, postscript_name: &str) -> Result<Handle, SelectionError> {
        if self.families.iter().any(|f| *f == postscript_name) {
            Ok(disk_handle(postscript_name))
        } else {
            Err(SelectionError::NotFound)
        }
    }

    fn as_any(&self) -> &dyn Any {
        self
    }

    fn as_mut_any(&mut self) -> &mut dyn Any {
        self
    }
}

/// An external provider that cannot be reached.
struct Broken;

fn unreachable_source() -> SelectionError {
    SelectionError::CannotAccessSource { reason: None }
}

impl Source for Broken {
    fn all_fonts(&self) -> Result<Vec<Handle>, SelectionError> {
        Err(unreachable_source())
    }

    fn all_families(&self) -> Result<Vec<String>, SelectionError> {
        Err(unreachable_source())
    }

    fn select_family_by_name(&self, _family_name: &str) -> Result<FamilyHandle, SelectionError> {
        Err(unreachable_source())
    }

    fn select_by_postscript_name(&self, _name: &str) -> Result<Handle, SelectionError> {
        Err(unreachable_source())
    }

    fn as_any(&self) -> &dyn Any {
        self
    }

    fn as_mut_any(&mut self) -> &mut dyn Any {
        self
    }
}

/// What the loader of `font-kit` reports of the font in `data`.
fn report(data: &[u8]) -> Result<LoadedFont, FontLoadingError> {
    Font::from_bytes(Arc::new(data.to_vec()), 0).map(|font| LoadedFont {
        family_name: font.family_name(),
        postscript_name: font.postscript_name(),
    })
}

/// Loads the font in `data` with `font-kit` and registers it.
fn load(source: &mut FontSource, data: &[u8]) -> Result<FontFamily, Error> {
    source.load_font(data, report(data))
}

/// The fonts in memory as `font-kit` holds them, for what takes its loader.
fn memory_of(source: &FontSource) -> MemSource {
    MemSource::from_fonts(source.in_memory_fonts().into_iter()).unwrap()
}

fn best_match(
    source: &FontSource,
    names: &[FamilyName],
    properties: &Properties,
) -> Result<Handle, SelectionError> {
    let own = memory_of(source).select_best_match(names, properties);
    source.select_best_match(own, || {
        source.external_providers().select_best_match(names, properties)
    })
}

fn descriptions(
    source: &FontSource,
    family: &FamilyHandle,
) -> Result<Vec<Properties>, SelectionError> {
    let own = Source::select_descriptions_in_family(&memory_of(source), family);
    source.select_descriptions_in_family(own, || {
        Source::select_descriptions_in_family(source.external_providers(), family)
    })
}

fn by_generic_name(
    source: &FontSource,
    name: &FamilyName,
) -> Result<FamilyHandle, SelectionError> {
    source.select_family_by_generic_name(name, || {
        memory_of(source).select_family_by_generic_name(name)
    })
}

fn alone() -> FontSource {
    FontSource::new(MultiSource::from_sources(Vec::new()))
}

fn with_provider(families: Vec<&'static str>) -> FontSource {
    FontSource::new(MultiSource::from_sources(vec![Box::new(Provider { families })]))
}

fn with_broken_provider() -> FontSource {
    FontSource::new(MultiSource::from_sources(vec![Box::new(Broken)]))
}

/// A source whose provider holds the font `OTHER` in a collection of its own.
fn with_font_provider() -> FontSource {
    let handle = Handle::from_memory(Arc::new(OTHER.as_bytes().to_vec()), 0);
    let provider = MemSource::from_fonts(std::iter::once(handle)).unwrap();
    FontSource::new(MultiSource::from_sources(vec![Box::new(provider)]))
}

fn bytes_of(handle: &Handle) -> &[u8] {
    match handle {
        Handle::Memory { bytes, .. } => bytes.as_slice(),
        Handle::Path { .. } => panic!("expected a font in memory"),
    }
}

fn is_in_memory(handle: &Handle) -> bool {
    matches!(handle, Handle::Memory { .. })
}

#[test]
fn new_source_holds_nothing() {
    let source = alone();
    assert!(source.all_fonts().unwrap().is_empty());
    assert!(source.all_families().unwrap().is_empty());
    assert_eq!(source.select_family_by_name("Tiny").unwrap_err(), SelectionError::NotFound);
    assert_eq!(
        source.select_by_postscript_name("Tiny-Regular").unwrap_err(),
        SelectionError::NotFound
    );
    assert_eq!(source.font_family("Tiny"), None);
}

#[test]
fn load_font_returns_the_family() {
    let mut source = alone();
    let family = load(&mut source, TINY.as_bytes()).unwrap();
    assert_eq!(family.name(), "Tiny");
    assert!(!family.is_generic());
}

#[test]
fn loaded_font_is_found_by_family_name() {
    let mut source = alone();
    load(&mut source, TINY.as_bytes()).unwrap();
    let family = source.select_family_by_name("Tiny").unwrap();
    assert_eq!(family.fonts().len(), 1);
    assert!(is_in_memory(&family.fonts()[0]));
    assert_eq!(source.font_family("Tiny"), Some(FontFamily::new_unchecked("Tiny")));
    assert_eq!(source.select_family_by_name("tiny").unwrap_err(), SelectionError::NotFound);
}

#[test]
fn loaded_font_is_found_by_postscript_name() {
    let mut source = alone();
    load(&mut source, TINY.as_bytes()).unwrap();
    let handle = source.select_by_postscript_name("Tiny-Regular").unwrap();
    assert!(is_in_memory(&handle));
    assert_eq!(
        source.select_by_postscript_name("Tiny").unwrap_err(),
        SelectionError::NotFound
    );
}

#[test]
fn loaded_font_keeps_its_bytes() {
    let mut source = alone();
    load(&mut source, TINY.as_bytes()).unwrap();
    match source.select_by_postscript_name("Tiny-Regular").unwrap() {
        Handle::Memory { bytes, font_index } => {
            assert_eq!(bytes.as_slice(), TINY.as_bytes());
            assert_eq!(font_index, 0);
        }
        Handle::Path { .. } => panic!("expected the font in memory"),
    }
}

#[test]
fn in_memory_family_shadows_the_provider() {
    let mut source = with_provider(vec!["Tiny", "Elsewhere"]);
    let before = source.select_family_by_name("Tiny").unwrap();
    assert!(!is_in_memory(&before.fonts()[0]));
    load(&mut source, TINY.as_bytes()).unwrap();
    let after = source.select_family_by_name("Tiny").unwrap();
    assert_eq!(after.fonts().len(), 1);
    assert!(is_in_memory(&after.fonts()[0]));
    let elsewhere = source.select_family_by_name("Elsewhere").unwrap();
    assert!(!is_in_memory(&elsewhere.fonts()[0]));
}

#[test]
fn all_families_lists_provider_then_memory() {
    let mut source = with_provider(vec!["Tiny", "Elsewhere"]);
    load(&mut source, TINY.as_bytes()).unwrap();
    assert_eq!(
        source.all_families().unwrap(),
        vec![String::from("Tiny"), String::from("Elsewhere"), String::from("Tiny")]
    );
}

#[test]
fn all_fonts_lists_provider_then_memory() {
    let mut source = with_provider(vec!["Elsewhere"]);
    load(&mut source, TINY.as_bytes()).unwrap();
    let fonts = source.all_fonts().unwrap();
    assert_eq!(fonts.len(), 2);
    assert!(!is_in_memory(&fonts[0]));
    assert!(is_in_memory(&fonts[1]));
}

#[test]
fn in_memory_families_are_listed_once_and_in_order() {
    let mut source = alone();
    load(&mut source, TINY.as_bytes()).unwrap();
    load(&mut source, OTHER.as_bytes()).unwrap();
    load(&mut source, TINY.as_bytes()).unwrap();
    assert_eq!(source.all_families().unwrap(), vec![String::from("Other"), String::from("Tiny")]);
    assert_eq!(source.all_fonts().unwrap().len(), 3);
    assert_eq!(source.select_family_by_name("Tiny").unwrap().fonts().len(), 2);
}

#[test]
fn two_registrations_are_both_visible() {
    let mut source = alone();
    load(&mut source, TINY.as_bytes()).unwrap();
    load(&mut source, OTHER.as_bytes()).unwrap();
    assert!(source.select_family_by_name("Tiny").is_ok());
    assert!(source.select_family_by_name("Other").is_ok());
    assert!(source.select_by_postscript_name("Tiny-Regular").is_ok());
    assert!(source.select_by_postscript_name("Other-Regular").is_ok());
}

#[test]
fn font_without_postscript_name_loads_but_is_not_registered() {
    let mut source = alone();
    let family = load(&mut source, NAMELESS.as_bytes()).unwrap();
    assert_eq!(family.name(), "Nameless");
    assert_eq!(source.select_family_by_name("Nameless").unwrap_err(), SelectionError::NotFound);
    assert!(source.all_families().unwrap().is_empty());
}

#[test]
fn garbage_fails_to_load_and_changes_nothing() {
    let mut source = alone();
    load(&mut source, TINY.as_bytes()).unwrap();
    let r = load(&mut source, &[0u8, 1, 2, 3, 4, 5, 6, 7]);
    assert!(matches!(r, Err(Error::FontLoadingFailed)));
    let r = load(&mut source, &[]);
    assert!(matches!(r, Err(Error::FontLoadingFailed)));
    assert_eq!(source.all_families().unwrap(), vec![String::from("Tiny")]);
    assert_eq!(source.all_fonts().unwrap().len(), 1);
}

#[test]
fn loading_failures_map_onto_errors() {
    assert!(matches!(
        Error::from_loading(FontLoadingError::NoSuchFontInCollection),
        Error::MissingFont
    ));
    assert!(matches!(
        Error::from_loading(FontLoadingError::UnknownFormat),
        Error::FontLoadingFailed
    ));
    assert!(matches!(Error::from_loading(FontLoadingError::Parse), Error::FontLoadingFailed));
    assert!(matches!(
        Error::from_loading(FontLoadingError::NoFilesystem),
        Error::BackendError(FontLoadingError::NoFilesystem)
    ));
    let io = std::io::Error::new(std::io::ErrorKind::Other, "disk");
    match Error::from_loading(FontLoadingError::Io(io)) {
        Error::BackendError(FontLoadingError::Io(inner)) => {
            assert_eq!(inner.kind(), std::io::ErrorKind::Other)
        }
        other => panic!("unexpected error {:?}", other),
    }
}

#[test]
fn provider_answers_what_memory_does_not_hold() {
    let mut source = with_provider(vec!["Elsewhere"]);
    load(&mut source, TINY.as_bytes()).unwrap();
    let family = source.select_family_by_name("Elsewhere").unwrap();
    assert!(!is_in_memory(&family.fonts()[0]));
    let handle = source.select_by_postscript_name("Elsewhere").unwrap();
    assert!(!is_in_memory(&handle));
    assert_eq!(source.font_family("Elsewhere"), Some(FontFamily::new_unchecked("Elsewhere")));
    assert_eq!(source.select_family_by_name("Nowhere").unwrap_err(), SelectionError::NotFound);
}

#[test]
fn provider_failure_comes_through_lookups() {
    let source = with_broken_provider();
    assert_eq!(source.select_family_by_name("Tiny").unwrap_err(), unreachable_source());
    assert_eq!(source.select_by_postscript_name("Tiny-Regular").unwrap_err(), unreachable_source());
    assert_eq!(source.font_family("Tiny"), None);
}

#[test]
fn provider_failure_fails_enumerations() {
    let mut source = with_broken_provider();
    load(&mut source, TINY.as_bytes()).unwrap();
    assert_eq!(source.all_fonts().unwrap_err(), unreachable_source());
    assert_eq!(source.all_families().unwrap_err(), unreachable_source());
}

#[test]
fn memory_answers_without_the_provider() {
    let mut source = with_broken_provider();
    load(&mut source, TINY.as_bytes()).unwrap();
    assert!(source.select_family_by_name("Tiny").is_ok());
    assert!(source.select_by_postscript_name("Tiny-Regular").is_ok());
    assert_eq!(source.font_family("Tiny"), Some(FontFamily::new_unchecked("Tiny")));
}

#[test]
fn generic_name_title_is_looked_up_by_name() {
    let mut source = with_provider(vec!["Tiny", "Elsewhere"]);
    load(&mut source, TINY.as_bytes()).unwrap();
    let family = by_generic_name(&source, &FamilyName::Title(String::from("Tiny")))
        .unwrap();
    assert!(is_in_memory(&family.fonts()[0]));
    let family = by_generic_name(&source, &FamilyName::Title(String::from("Elsewhere")))
        .unwrap();
    assert!(!is_in_memory(&family.fonts()[0]));
    assert_eq!(
        by_generic_name(&source, &FamilyName::Title(String::from("Nowhere")))
            .unwrap_err(),
        SelectionError::NotFound
    );
}

#[test]
fn best_match_prefers_memory() {
    let mut source = with_provider(vec!["Tiny"]);
    load(&mut source, TINY.as_bytes()).unwrap();
    let names = [FamilyName::Title(String::from("Nowhere")), FamilyName::Title(String::from("Tiny"))];
    let handle = best_match(&source, &names, &Properties::new()).unwrap();
    assert!(is_in_memory(&handle));
    let none = [FamilyName::Title(String::from("Nowhere"))];
    assert_eq!(
        best_match(&source, &none, &Properties::new()).unwrap_err(),
        SelectionError::NotFound
    );
}

#[test]
fn descriptions_come_from_memory_and_never_fail() {
    let mut source = with_broken_provider();
    load(&mut source, TINY.as_bytes()).unwrap();
    let family = source.select_family_by_name("Tiny").unwrap();
    assert_eq!(descriptions(&source, &family).unwrap().len(), 1);
    assert!(descriptions(&source, &FamilyHandle::new()).unwrap().is_empty());
}

#[test]
fn in_memory_first_keeps_a_success() {
    let asked = Cell::new(false);
    let r = in_memory_first(Ok(1), || {
        asked.set(true);
        Ok(2)
    });
    assert_eq!(r, Ok(1));
    assert!(!asked.get());
}

#[test]
fn in_memory_first_falls_through_on_failure() {
    let r = in_memory_first(Err(SelectionError::NotFound), || Ok(2));
    assert_eq!(r, Ok(2));
    let r: Result<u8, SelectionError> =
        in_memory_first(Err(SelectionError::NotFound), || Err(unreachable_source()));
    assert_eq!(r, Err(unreachable_source()));
    let r: Result<u8, SelectionError> =
        in_memory_first(Err(unreachable_source()), || Err(SelectionError::NotFound));
    assert_eq!(r, Err(SelectionError::NotFound));
}

#[test]
fn external_then_in_memory_appends() {
    let r = external_then_in_memory(Ok(vec![1, 2]), || Ok(vec![3]));
    assert_eq!(r, Ok(vec![1, 2, 3]));
    let r = external_then_in_memory(Ok(Vec::new()), || Ok(vec![3]));
    assert_eq!(r, Ok(vec![3]));
}

#[test]
fn external_then_in_memory_stops_at_an_external_failure() {
    let asked = Cell::new(false);
    let r: Result<Vec<u8>, SelectionError> = external_then_in_memory(Err(unreachable_source()), || {
        asked.set(true);
        Ok(vec![3])
    });
    assert_eq!(r, Err(unreachable_source()));
    assert!(!asked.get());
}

#[test]
fn external_then_in_memory_reports_an_in_memory_failure() {
    let r: Result<Vec<u8>, SelectionError> =
        external_then_in_memory(Ok(vec![1]), || Err(SelectionError::NotFound));
    assert_eq!(r, Err(SelectionError::NotFound));
}

#[test]
fn best_match_falls_through_to_the_provider() {
    let mut source = with_font_provider();
    load(&mut source, TINY.as_bytes()).unwrap();
    let other = [FamilyName::Title(String::from("Other"))];
    let handle = best_match(&source, &other, &Properties::new()).unwrap();
    assert_eq!(bytes_of(&handle), OTHER.as_bytes());
    let both = [FamilyName::Title(String::from("Other")), FamilyName::Title(String::from("Tiny"))];
    let handle = best_match(&source, &both, &Properties::new()).unwrap();
    assert_eq!(bytes_of(&handle), TINY.as_bytes());
}

#[test]
fn provider_fonts_are_described_from_memory() {
    let source = with_font_provider();
    let family = source.select_family_by_name("Other").unwrap();
    assert_eq!(bytes_of(&family.fonts()[0]), OTHER.as_bytes());
    assert_eq!(descriptions(&source, &family).unwrap().len(), 1);
}

#[test]
fn same_family_in_memory_and_provider_is_listed_twice() {
    let mut source = with_font_provider();
    load(&mut source, OTHER.as_bytes()).unwrap();
    assert_eq!(source.all_families().unwrap(), vec![String::from("Other"), String::from("Other")]);
    assert_eq!(source.all_fonts().unwrap().len(), 2);
    assert_eq!(source.select_family_by_name("Other").unwrap().fonts().len(), 1);
}

#[test]
fn registration_is_observable() {
    let mut source = with_provider(vec!["Tiny"]);
    assert!(!source.has_family("Tiny"));
    assert!(!source.has_postscript_name("Tiny-Regular"));
    load(&mut source, TINY.as_bytes()).unwrap();
    assert!(source.has_family("Tiny"));
    assert!(source.has_postscript_name("Tiny-Regular"));
    assert!(!source.has_family("Tiny-Regular"));
    assert!(!source.has_postscript_name("Tiny"));
    load(&mut source, NAMELESS.as_bytes()).unwrap();
    assert!(!source.has_family("Nameless"));
}

#[test]
fn provider_count_counts_the_providers() {
    assert_eq!(alone().provider_count(), 0);
    assert_eq!(with_provider(vec!["Tiny"]).provider_count(), 1);
    let two = FontSource::new(MultiSource::from_sources(vec![
        Box::new(Provider { families: vec!["A"] }),
        Box::new(Broken),
    ]));
    assert_eq!(two.provider_count(), 2);
    let mut source = alone();
    load(&mut source, TINY.as_bytes()).unwrap();
    assert_eq!(source.provider_count(), 0);
}

#[test]
fn without_providers_enumerations_give_what_is_in_memory() {
    let mut source = alone();
    assert_eq!(source.all_fonts().unwrap().len(), 0);
    assert_eq!(source.all_families().unwrap(), Vec::<String>::new());
    load(&mut source, TINY.as_bytes()).unwrap();
    load(&mut source, OTHER.as_bytes()).unwrap();
    let fonts = source.all_fonts().unwrap();
    assert_eq!(fonts.len(), 2);
    assert_eq!(bytes_of(&fonts[0]), OTHER.as_bytes());
    assert_eq!(bytes_of(&fonts[1]), TINY.as_bytes());
    assert_eq!(source.all_families().unwrap(), vec![String::from("Other"), String::from("Tiny")]);
}

#[test]
fn without_providers_best_match_is_the_match_in_memory() {
    let mut source = alone();
    let tiny = [FamilyName::Title(String::from("Tiny"))];
    assert_eq!(
        best_match(&source, &tiny, &Properties::new()).unwrap_err(),
        SelectionError::NotFound
    );
    assert_eq!(
        best_match(&source, &[], &Properties::new()).unwrap_err(),
        SelectionError::NotFound
    );
    load(&mut source, TINY.as_bytes()).unwrap();
    load(&mut source, OTHER.as_bytes()).unwrap();
    let handle = best_match(&source, &tiny, &Properties::new()).unwrap();
    assert_eq!(bytes_of(&handle), TINY.as_bytes());
    let again = best_match(&source, &tiny, &Properties::new()).unwrap();
    assert_eq!(bytes_of(&again), bytes_of(&handle));
}

#[test]
fn a_failed_load_keeps_every_font() {
    let mut source = alone();
    load(&mut source, TINY.as_bytes()).unwrap();
    load(&mut source, OTHER.as_bytes()).unwrap();
    assert!(load(&mut source, b"no font").is_err());
    assert!(source.has_family("Tiny"));
    assert!(source.has_family("Other"));
    assert_eq!(source.all_fonts().unwrap().len(), 2);
}

#[test]
fn load_font_registers_what_the_loader_reported() {
    let mut source = alone();
    let reported = LoadedFont {
        family_name: String::from("Given"),
        postscript_name: Some(String::from("Given-Bold")),
    };
    let family = source.load_font(b"bytes of the font", Ok(reported)).unwrap();
    assert_eq!(family.name(), "Given");
    assert!(source.has_family("Given"));
    assert!(source.has_postscript_name("Given-Bold"));
    let fonts = source.all_fonts().unwrap();
    assert_eq!(fonts.len(), 1);
    match &fonts[0] {
        Handle::Memory { bytes, font_index } => {
            assert_eq!(bytes.as_slice(), b"bytes of the font");
            assert_eq!(*font_index, 0);
        }
        Handle::Path { .. } => panic!("expected the font in memory"),
    }
}

#[test]
fn load_font_reports_each_failure_of_the_loader() {
    let mut source = alone();
    let r = source.load_font(b"x", Err(FontLoadingError::NoSuchFontInCollection));
    assert!(matches!(r, Err(Error::MissingFont)));
    let r = source.load_font(b"x", Err(FontLoadingError::UnknownFormat));
    assert!(matches!(r, Err(Error::FontLoadingFailed)));
    let r = source.load_font(b"x", Err(FontLoadingError::Parse));
    assert!(matches!(r, Err(Error::FontLoadingFailed)));
    let r = source.load_font(b"x", Err(FontLoadingError::NoFilesystem));
    assert!(matches!(r, Err(Error::BackendError(FontLoadingError::NoFilesystem))));
    assert!(source.all_fonts().unwrap().is_empty());
    assert!(source.all_families().unwrap().is_empty());
}

#[test]
fn not_a_font_fails_to_load_on_a_new_source() {
    let mut source = alone();
    let r = load(&mut source, b"not a font");
    assert!(matches!(r, Err(Error::FontLoadingFailed)));
    assert_eq!(source.all_fonts().unwrap().len(), 0);
}

#[test]
fn fonts_are_kept_by_family_and_then_by_registration() {
    let mut source = alone();
    let font = |family: &str, name: &str| LoadedFont {
        family_name: String::from(family),
        postscript_name: Some(String::from(name)),
    };
    source.load_font(b"1", Ok(font("B", "b-one"))).unwrap();
    source.load_font(b"2", Ok(font("A", "a-one"))).unwrap();
    source.load_font(b"3", Ok(font("B", "b-two"))).unwrap();
    source.load_font(b"4", Ok(font("Ab", "ab"))).unwrap();
    source.load_font(b"5", Ok(font("", "none"))).unwrap();
    source.load_font(b"6", Ok(font("a", "lower"))).unwrap();
    let fonts: Vec<Vec<u8>> =
        source.in_memory_fonts().iter().map(|h| bytes_of(h).to_vec()).collect();
    assert_eq!(
        fonts,
        vec![b"5".to_vec(), b"2".to_vec(), b"4".to_vec(), b"1".to_vec(), b"3".to_vec(), b"6".to_vec()]
    );
    assert_eq!(source.in_memory_families(), vec!["", "A", "Ab", "B", "a"]);
    let family = source.in_memory_family("B").unwrap();
    assert_eq!(family.fonts().len(), 2);
    assert_eq!(bytes_of(&family.fonts()[0]), b"1");
    assert_eq!(bytes_of(&family.fonts()[1]), b"3");
    assert_eq!(bytes_of(&source.in_memory_font("b-two").unwrap()), b"3");
    assert_eq!(source.in_memory_font("B").unwrap_err(), SelectionError::NotFound);
    assert_eq!(source.in_memory_family("b").unwrap_err(), SelectionError::NotFound);
}

#[test]
fn registry_orders_as_the_outside_collection_does() {
    let mut source = alone();
    let mut outside = MemSource::empty();
    for data in [TINY, OTHER, TINY, NAMELESS, OTHER] {
        load(&mut source, data.as_bytes()).unwrap();
        outside.add_font(Handle::from_memory(Arc::new(data.as_bytes().to_vec()), 0)).unwrap();
    }
    let ours = source.in_memory_fonts();
    let theirs = outside.all_fonts().unwrap();
    assert_eq!(ours.len(), theirs.len());
    for (a, b) in ours.iter().zip(theirs.iter()) {
        assert_eq!(bytes_of(a), bytes_of(b));
    }
    assert_eq!(source.in_memory_families(), outside.all_families().unwrap());
}

#[test]
fn first_font_of_a_postscript_name_is_found() {
    let mut source = alone();
    let font = |family: &str| LoadedFont {
        family_name: String::from(family),
        postscript_name: Some(String::from("Same")),
    };
    source.load_font(b"late", Ok(font("Z"))).unwrap();
    source.load_font(b"early", Ok(font("A"))).unwrap();
    assert_eq!(bytes_of(&source.select_by_postscript_name("Same").unwrap()), b"early");
}

#[test]
fn family_of_lookup_follows_the_lookup() {
    let found = family_of_lookup(Ok(FamilyHandle::new()), "Any");
    assert_eq!(found, Some(FontFamily::new_unchecked("Any")));
    assert_eq!(family_of_lookup(Err(SelectionError::NotFound), "Any"), None);
    assert_eq!(family_of_lookup(Err(unreachable_source()), "Any"), None);
}

#[test]
fn generic_name_asks_memory_then_the_provider() {
    let source = with_provider(vec!["Tiny"]);
    let asked = Cell::new(false);
    let family = source
        .select_family_by_generic_name(&FamilyName::Serif, || {
            asked.set(true);
            Ok(FamilyHandle::from_font_handles(std::iter::once(disk_handle("memory"))))
        })
        .unwrap();
    assert!(asked.get());
    assert_eq!(family.fonts().len(), 1);
    let r = alone().select_family_by_generic_name(&FamilyName::Serif, || Err(unreachable_source()));
    assert_eq!(r.unwrap_err(), SelectionError::NotFound);
    let title = FamilyName::Title(String::from("Tiny"));
    let r = source.select_family_by_generic_name(&title, || panic!("a title needs no platform"));
    assert!(r.is_ok());
}

#[test]
fn best_match_and_descriptions_keep_the_precedence() {
    let source = alone();
    let asked = Cell::new(false);
    let hit = disk_handle("hit");
    let r = source.select_best_match(Ok(hit), || {
        asked.set(true);
        Err(SelectionError::NotFound)
    });
    assert!(r.is_ok() && !asked.get());
    let r = source.select_best_match(Err(SelectionError::NotFound), || Ok(disk_handle("far")));
    assert!(matches!(r, Ok(Handle::Path { .. })));
    let r = source.select_descriptions_in_family(Ok(vec![Properties::new()]), || {
        asked.set(true);
        Ok(Vec::new())
    });
    assert_eq!(r.unwrap().len(), 1);
    assert!(!asked.get());
    let r = source.select_descriptions_in_family(Err(SelectionError::NotFound), || Ok(Vec::new()));
    assert_eq!(r.unwrap().len(), 0);
}
