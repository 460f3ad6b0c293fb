//! The locale map of the keyboard layout variant: from the language
//! identifier of a layout, its low 16 bits, to the name of the locale.
//!
//! The map is built once from all installed layouts. One language without a
//! name fails the whole construction; no partial map is handed out.

use std::collections::HashMap;
use vstd::prelude::*;
use vstd::slice::slice_subrange;
use vstd::std_specs::hash::group_hash_axioms;
use crate::error::GetKeyboardLayoutError;
use crate::probe::ProbeFailure;

verus! {

broadcast use group_hash_axioms;

/// The longest locale name the system writes, its closing zero included.
pub const LOCALE_NAME_MAX_LENGTH: usize = 85;

/// The text that a sequence of UTF-16 code units stands for, each unpaired
/// surrogate replaced by U+FFFD.
pub uninterp spec fn utf16_lossy(units: Seq<u16>) -> Seq<char>;

/// `String::from_utf16_lossy` of the standard library: decodes UTF-16 and
/// puts the replacement character in place of what is not valid. The result
/// depends on the code units alone, so it is named [`utf16_lossy`].
#[verifier::external_body]
fn decode_utf16_lossy(units: &[u16]) -> (text: String)
    ensures
        text@ == utf16_lossy(units@),
{
    String::from_utf16_lossy(units)
}

/// The language identifier of a keyboard layout handle.
pub open spec fn language_of(layout: usize) -> u16 {
    (layout % 0x1_0000) as u16
}

/// The code units of the name that the system wrote into `buffer`, where it
/// reported `written` units, the closing zero included; `None` where it
/// reported none, or more than the buffer holds.
pub open spec fn name_units(buffer: Seq<u16>, written: i32) -> Option<Seq<u16>> {
    if 0 < written && written - 1 <= buffer.len() {
        Some(buffer.subrange(0, written - 1))
    } else {
        None
    }
}

/// The language identifier of a keyboard layout handle: its low 16 bits.
pub fn lang_id_of_layout(layout: usize) -> (lang_id: u16)
    ensures
        lang_id == language_of(layout),
{
    (layout % 0x1_0000) as u16
}

/// The locale identifier that names a language with the default sort order.
pub fn locale_id_of(lang_id: u16) -> (locale_id: u32)
    ensures
        locale_id == lang_id,
{
    lang_id as u32
}

/// Reads the locale name that the system wrote into `buffer`. `written` is
/// what the naming call returned: the number of code units including the
/// closing zero, or zero where the language has no name.
pub fn lang_id2locale(buffer: &[u16], written: i32) -> (name: Option<String>)
    ensures
        match name {
            Some(text) => name_units(buffer@, written) is Some && text@ == utf16_lossy(
                name_units(buffer@, written)->Some_0,
            ),
            None => name_units(buffer@, written) is None,
        },
{
    if written <= 0 {
        return None;
    }
    let len: usize = (written - 1) as usize;
    if len > buffer.len() {
        return None;
    }
    Some(decode_utf16_lossy(slice_subrange(buffer, 0, len)))
}

/// An installed keyboard layout with the locale name of its language, if the
/// system has one.
#[derive(Clone, Debug, PartialEq, Eq)]
pub struct InstalledLayout {
    /// The layout handle.
    pub layout: usize,
    /// The locale name of the layout's language.
    pub name: Option<String>,
}

/// Whether every one of `layouts` has a name.
pub open spec fn all_named(layouts: Seq<InstalledLayout>) -> bool {
    forall|i: int| 0 <= i < layouts.len() ==> (#[trigger] layouts[i]).name is Some
}

/// The map that `layouts` give: each language with its name, the later of
/// two layouts of one language deciding.
pub open spec fn names_of(layouts: Seq<InstalledLayout>) -> Map<u16, Seq<char>>
    decreases layouts.len(),
{
    if layouts.len() == 0 {
        Map::empty()
    } else {
        let entry = layouts.last();
        names_of(layouts.drop_last()).insert(language_of(entry.layout), entry.name->Some_0@)
    }
}

/// What a lookup of `layout` in `names` gives.
pub open spec fn resolved(names: Map<u16, Seq<char>>, layout: usize) -> Result<
    Seq<char>,
    GetKeyboardLayoutError,
> {
    if layout == 0 {
        Err(GetKeyboardLayoutError::Probe(ProbeFailure::NoKeyboardLayout))
    } else if names.contains_key(language_of(layout)) {
        Ok(names[language_of(layout)])
    } else {
        Err(GetKeyboardLayoutError::UnknownLanguage)
    }
}

/// The map from language identifiers to locale names. It is built by
/// [`initialize_locale_map`] and only read afterwards.
pub struct LocaleMap {
    names: HashMap<u16, String>,
}

impl View for LocaleMap {
    type V = Map<u16, Seq<char>>;

    closed spec fn view(&self) -> Map<u16, Seq<char>> {
        Map::new(|lang_id: u16| self.names@.contains_key(lang_id), |lang_id: u16| self.names@[lang_id]@)
    }
}

impl LocaleMap {
    /// A map without entries.
    fn new() -> (map: LocaleMap)
        ensures
            map@ == Map::<u16, Seq<char>>::empty(),
    {
        let map = LocaleMap { names: HashMap::new() };
        assert(map@ =~= Map::<u16, Seq<char>>::empty());
        map
    }

    /// Enters the name of a language, in place of an earlier one.
    fn insert(&mut self, lang_id: u16, name: String)
        ensures
            final(self)@ == old(self)@.insert(lang_id, name@),
    {
        let _ = self.names.insert(lang_id, name);
        assert(self@ =~= old(self)@.insert(lang_id, name@));
    }

    /// The locale name of a language, if the map has it.
    pub fn locale_of(&self, lang_id: u16) -> (name: Option<&String>)
        ensures
            match name {
                Some(text) => self@.contains_key(lang_id) && text@ == self@[lang_id],
                None => !self@.contains_key(lang_id),
            },
    {
        self.names.get(&lang_id)
    }

    /// The locale name of a keyboard layout. The map itself is never
    /// changed by a lookup, whether it succeeds or not.
    pub fn resolve(&self, layout: usize) -> (result: Result<String, GetKeyboardLayoutError>)
        ensures
            match result {
                Ok(name) => resolved(self@, layout) == Ok::<Seq<char>, GetKeyboardLayoutError>(
                    name@,
                ),
                Err(error) => resolved(self@, layout) == Err::<Seq<char>, GetKeyboardLayoutError>(
                    error,
                ),
            },
    {
        if layout == 0 {
            return Err(GetKeyboardLayoutError::Probe(ProbeFailure::NoKeyboardLayout));
        }
        match self.locale_of(lang_id_of_layout(layout)) {
            Some(name) => Ok(name.clone()),
            None => Err(GetKeyboardLayoutError::UnknownLanguage),
        }
    }
}

/// Builds the locale map from all installed layouts. One layout without a
/// name fails the construction.
pub fn initialize_locale_map(layouts: &Vec<InstalledLayout>) -> (result: Result<
    LocaleMap,
    GetKeyboardLayoutError,
>)
    ensures
        match result {
            Ok(map) => all_named(layouts@) && map@ == names_of(layouts@),
            Err(error) => !all_named(layouts@) && error
                == GetKeyboardLayoutError::UnresolvedLocale,
        },
{
    let mut map = LocaleMap::new();
    let mut done: usize = 0;
    proof {
        assert(layouts@.take(0) =~= Seq::<InstalledLayout>::empty());
    }
    while done < layouts.len()
        invariant
            done <= layouts.len(),
            all_named(layouts@.take(done as int)),
            map@ == names_of(layouts@.take(done as int)),
        decreases layouts.len() - done,
    {
        proof {
            assert(layouts@.take(done + 1).drop_last() =~= layouts@.take(done as int));
            assert(layouts@.take(done + 1).last() == layouts@[done as int]);
        }
        let entry = &layouts[done];
        let lang_id = lang_id_of_layout(entry.layout);
        match &entry.name {
            Some(name) => {
                map.insert(lang_id, name.clone());
            },
            None => {
                return Err(GetKeyboardLayoutError::UnresolvedLocale);
            },
        }
        proof {
            assert forall|i: int| 0 <= i < done + 1 implies (#[trigger] layouts@.take(
                done + 1,
            )[i]).name is Some by {
                if i < done {
                    assert(layouts@.take(done as int)[i] == layouts@.take(done + 1)[i]);
                }
            }
        }
        done = done + 1;
    }
    proof {
        assert(layouts@.take(layouts.len() as int) =~= layouts@);
    }
    Ok(map)
}

/// The domain of the built map: a language is in it exactly when one of the
/// layouts has it.
pub proof fn lemma_names_cover_layouts(layouts: Seq<InstalledLayout>, lang_id: u16)
    ensures
        names_of(layouts).contains_key(lang_id) <==> exists|i: int|
            0 <= i < layouts.len() && language_of((#[trigger] layouts[i]).layout) == lang_id,
    decreases layouts.len(),
{
    if layouts.len() > 0 {
        let before = layouts.drop_last();
        lemma_names_cover_layouts(before, lang_id);
        if names_of(layouts).contains_key(lang_id) {
            if language_of(layouts.last().layout) == lang_id {
                assert(language_of(layouts[layouts.len() - 1].layout) == lang_id);
            } else {
                let i = choose|i: int|
                    0 <= i < before.len() && language_of((#[trigger] before[i]).layout) == lang_id;
                assert(layouts[i] == before[i]);
            }
        }
        if exists|i: int|
            0 <= i < layouts.len() && language_of((#[trigger] layouts[i]).layout) == lang_id {
            let i = choose|i: int|
                0 <= i < layouts.len() && language_of((#[trigger] layouts[i]).layout) == lang_id;
            if i < before.len() {
                assert(before[i] == layouts[i]);
            }
        }
    }
}

/// A lookup that fails leaves the next one as it would have been: a layout
/// whose language the map does not know is an error of that one query, and a
/// layout whose language it knows resolves to its name all the same.
pub proof fn lemma_unknown_language_is_recoverable(
    names: Map<u16, Seq<char>>,
    unknown: usize,
    known: usize,
)
    requires
        unknown != 0,
        known != 0,
        !names.contains_key(language_of(unknown)),
        names.contains_key(language_of(known)),
    ensures
        resolved(names, unknown) == Err::<Seq<char>, GetKeyboardLayoutError>(
            GetKeyboardLayoutError::UnknownLanguage,
        ),
        resolved(names, known) == Ok::<Seq<char>, GetKeyboardLayoutError>(
            names[language_of(known)],
        ),
{
}

} // verus!
