//! The multi-localized string store: translations of one piece of text,
//! keyed by a language code and a country code, with the first entry added
//! standing in as the default.

use vstd::prelude::*;
use vstd::string::StringExecFnsIsAscii;
use vstd::utf8::is_ascii_chars;
use crate::error::CodecError;

verus! {

/// One stored translation; the code type is two raw bytes on the public
/// surface and a packed word inside the store.
#[derive(Clone, Debug)]
pub struct MluEntry<T = [u8; 2]> {
    pub lang: T,
    pub cntry: T,
    pub string: String,
}

/// What a lookup hands back: the text found, and the language and country
/// codes of the entry that supplied it.
#[derive(Clone, Debug)]
pub struct MluResult<T = [u8; 2]> {
    pub string: String,
    pub obtained_language: T,
    pub obtained_country: T,
}

/// The store itself.
#[derive(Clone, Debug)]
pub struct Mlu {
    list: Vec<MluEntry<u16>>,
    default: Option<MluEntry<u16>>,
}

/// The word a two-byte code collapses to: the bitwise OR of its two
/// bytes, so distinct codes can collide and [`word_bytes`] is not its
/// inverse.  An absent code collapses to zero.
pub open spec fn code_word(s: Option<[u8; 2]>) -> u16 {
    match s {
        Some(a) => (a[0] as u16) | (a[1] as u16),
        None => 0,
    }
}

/// The two bytes a packed word unpacks to, most significant first.
pub open spec fn word_bytes(v: u16) -> Seq<u8> {
    seq![(v / 0x100) as u8, (v % 0x100) as u8]
}

/// What one stored entry holds: its codes and its text.
pub open spec fn entry_rec(e: MluEntry<u16>) -> (u16, u16, Seq<char>) {
    (e.lang, e.cntry, e.string@)
}

/// The first entry stored under exactly the given pair of codes.
pub open spec fn find_pair(l: Seq<MluEntry<u16>>, lang: u16, cntry: u16) -> Option<
    (u16, u16, Seq<char>),
>
    decreases l.len(),
{
    if l.len() == 0 {
        None
    } else if l[0].lang == lang && l[0].cntry == cntry {
        Some(entry_rec(l[0]))
    } else {
        find_pair(l.drop_first(), lang, cntry)
    }
}

/// The first entry stored under the given language code, whatever its
/// country.
pub open spec fn find_lang(l: Seq<MluEntry<u16>>, lang: u16) -> Option<(u16, u16, Seq<char>)>
    decreases l.len(),
{
    if l.len() == 0 {
        None
    } else if l[0].lang == lang {
        Some(entry_rec(l[0]))
    } else {
        find_lang(l.drop_first(), lang)
    }
}

/// What a lookup returns: the exact pair if stored; else the first entry
/// in the requested language; else the default.  On an exact hit the
/// reported codes are the requested ones.
pub open spec fn lookup(
    l: Seq<MluEntry<u16>>,
    default: Option<MluEntry<u16>>,
    lang: u16,
    cntry: u16,
) -> Option<(u16, u16, Seq<char>)> {
    match find_pair(l, lang, cntry) {
        Some(t) => Some((lang, cntry, t.2)),
        None => match find_lang(l, lang) {
            Some(t) => Some(t),
            None => match default {
                Some(e) => Some(entry_rec(e)),
                None => None,
            },
        },
    }
}

proof fn lemma_find_pair_split(l: Seq<MluEntry<u16>>, lang: u16, cntry: u16, i: int)
    requires
        0 <= i <= l.len(),
        forall|j: int| 0 <= j < i ==> !((#[trigger] l[j]).lang == lang && l[j].cntry == cntry),
    ensures
        find_pair(l, lang, cntry) == find_pair(l.skip(i), lang, cntry),
    decreases i,
{
    if i == 0 {
        assert(l.skip(0) =~= l);
    } else {
        assert(!(l[0].lang == lang && l[0].cntry == cntry));
        assert(forall|j: int| 0 <= j < i - 1 ==> #[trigger] l.drop_first()[j] == l[j + 1]);
        lemma_find_pair_split(l.drop_first(), lang, cntry, i - 1);
        assert(l.drop_first().skip(i - 1) =~= l.skip(i));
    }
}

proof fn lemma_find_lang_split(l: Seq<MluEntry<u16>>, lang: u16, i: int)
    requires
        0 <= i <= l.len(),
        forall|j: int| 0 <= j < i ==> (#[trigger] l[j]).lang != lang,
    ensures
        find_lang(l, lang) == find_lang(l.skip(i), lang),
    decreases i,
{
    if i == 0 {
        assert(l.skip(0) =~= l);
    } else {
        assert(l[0].lang != lang);
        assert(forall|j: int| 0 <= j < i - 1 ==> #[trigger] l.drop_first()[j] == l[j + 1]);
        lemma_find_lang_split(l.drop_first(), lang, i - 1);
        assert(l.drop_first().skip(i - 1) =~= l.skip(i));
    }
}

/// Collapses an optional two-byte code into one word by OR-ing its
/// bytes; see [`code_word`] for the collision this carries.
pub fn str_to_u16(s: Option<[u8; 2]>) -> (r: u16)
    ensures
        r == code_word(s),
{
    match s {
        Some(a) => (a[0] as u16) | (a[1] as u16),
        None => 0,
    }
}

/// Unpacks a word into its two bytes, most significant first.
pub fn str_from_u16(v: u16) -> (r: [u8; 2])
    ensures
        r@ == word_bytes(v),
{
    let r = [(v / 0x100) as u8, (v % 0x100) as u8];
    proof {
        assert(r@ =~= word_bytes(v));
    }
    r
}

impl Mlu {
    /// The store's entries, for specification.
    pub closed spec fn entries(&self) -> Seq<MluEntry<u16>> {
        self.list@
    }

    /// The store's default entry, for specification.
    pub closed spec fn default_entry(&self) -> Option<MluEntry<u16>> {
        self.default
    }

    /// An empty store.
    pub fn new() -> (r: Mlu)
        ensures
            r.entries().len() == 0,
            r.default_entry() is None,
    {
        Mlu { list: Vec::new(), default: None }
    }

    /// The first stored text under exactly the given pair of codes.
    fn search_for_entry(&self, lang: u16, cntry: u16) -> (r: Option<&String>)
        ensures
            match (r, find_pair(self.entries(), lang, cntry)) {
                (Some(s), Some(t)) => s@ == t.2,
                (None, None) => true,
                _ => false,
            },
    {
        let mut i: usize = 0;
        while i < self.list.len()
            invariant
                i <= self.list@.len(),
                forall|j: int|
                    0 <= j < i ==> !((#[trigger] self.list@[j]).lang == lang
                        && self.list@[j].cntry == cntry),
            decreases self.list@.len() - i,
        {
            if self.list[i].lang == lang && self.list[i].cntry == cntry {
                proof {
                    lemma_find_pair_split(self.list@, lang, cntry, i as int);
                    assert(self.list@.skip(i as int)[0] == self.list@[i as int]);
                }
                return Some(&self.list[i].string);
            }
            i = i + 1;
        }
        proof {
            lemma_find_pair_split(self.list@, lang, cntry, self.list@.len() as int);
            assert(self.list@.skip(self.list@.len() as int).len() == 0);
        }
        None
    }

    /// Stores one translation under a pair of packed codes.  A pair
    /// already stored is refused; the first entry ever stored becomes the
    /// default.
    fn add(&mut self, lang: u16, cntry: u16, s: String) -> (r: Result<(), CodecError>)
        ensures
            match r {
                Ok(_) => {
                    &&& find_pair(old(self).entries(), lang, cntry) is None
                    &&& final(self).entries().len() == old(self).entries().len() + 1
                    &&& forall|k: int|
                        0 <= k < old(self).entries().len() ==> final(self).entries()[k] == old(
                            self,
                        ).entries()[k]
                    &&& entry_rec(final(self).entries().last()) == (lang, cntry, s@)
                    &&& final(self).default_entry() == match old(self).default_entry() {
                        Some(e) => Some(e),
                        None => Some(final(self).entries().last()),
                    }
                },
                Err(e) => {
                    &&& e == CodecError::AlreadyExists
                    &&& find_pair(old(self).entries(), lang, cntry) is Some
                    &&& final(self).entries() == old(self).entries()
                    &&& final(self).default_entry() == old(self).default_entry()
                },
            },
    {
        match self.search_for_entry(lang, cntry) {
            Some(_) => Err(CodecError::AlreadyExists),
            None => {
                let value = MluEntry { lang, cntry, string: s };
                let kept = MluEntry { lang, cntry, string: value.string.clone() };
                self.list.push(kept);
                if self.default.is_none() {
                    self.default = Some(value);
                }
                Ok(())
            },
        }
    }

    /// Stores an ASCII translation: every character must be plain ASCII,
    /// else the text is refused as invalid data.
    pub fn set_ascii(
        &mut self,
        lang: Option<[u8; 2]>,
        cntry: Option<[u8; 2]>,
        ascii_string: String,
    ) -> (r: Result<(), CodecError>)
        ensures
            match r {
                Ok(_) => {
                    &&& is_ascii_chars(ascii_string@)
                    &&& find_pair(
                        old(self).entries(),
                        code_word(lang),
                        code_word(cntry),
                    ) is None
                    &&& final(self).entries().len() == old(self).entries().len() + 1
                    &&& forall|k: int|
                        0 <= k < old(self).entries().len() ==> final(self).entries()[k] == old(
                            self,
                        ).entries()[k]
                    &&& entry_rec(final(self).entries().last()) == (
                        code_word(lang),
                        code_word(cntry),
                        ascii_string@,
                    )
                    &&& final(self).default_entry() == match old(self).default_entry() {
                        Some(e) => Some(e),
                        None => Some(final(self).entries().last()),
                    }
                },
                Err(e) => {
                    &&& final(self).entries() == old(self).entries()
                    &&& final(self).default_entry() == old(self).default_entry()
                    &&& (e == CodecError::InvalidData || e == CodecError::AlreadyExists)
                    &&& (e == CodecError::InvalidData <==> !is_ascii_chars(ascii_string@))
                    &&& (e == CodecError::AlreadyExists <==> is_ascii_chars(ascii_string@)
                        && find_pair(
                        old(self).entries(),
                        code_word(lang),
                        code_word(cntry),
                    ) is Some)
                },
            },
    {
        if !ascii_string.is_ascii() {
            return Err(CodecError::InvalidData);
        }
        let lang = str_to_u16(lang);
        let cntry = str_to_u16(cntry);
        self.add(lang, cntry, ascii_string)
    }

    /// Stores a translation with no character restriction.
    pub fn set_unicode(
        &mut self,
        lang: Option<[u8; 2]>,
        cntry: Option<[u8; 2]>,
        utf8_string: String,
    ) -> (r: Result<(), CodecError>)
        ensures
            match r {
                Ok(_) => {
                    &&& find_pair(
                        old(self).entries(),
                        code_word(lang),
                        code_word(cntry),
                    ) is None
                    &&& final(self).entries().len() == old(self).entries().len() + 1
                    &&& forall|k: int|
                        0 <= k < old(self).entries().len() ==> final(self).entries()[k] == old(
                            self,
                        ).entries()[k]
                    &&& entry_rec(final(self).entries().last()) == (
                        code_word(lang),
                        code_word(cntry),
                        utf8_string@,
                    )
                    &&& final(self).default_entry() == match old(self).default_entry() {
                        Some(e) => Some(e),
                        None => Some(final(self).entries().last()),
                    }
                },
                Err(e) => {
                    &&& e == CodecError::AlreadyExists
                    &&& find_pair(
                        old(self).entries(),
                        code_word(lang),
                        code_word(cntry),
                    ) is Some
                    &&& final(self).entries() == old(self).entries()
                    &&& final(self).default_entry() == old(self).default_entry()
                },
            },
    {
        let lang = str_to_u16(lang);
        let cntry = str_to_u16(cntry);
        self.add(lang, cntry, utf8_string)
    }

    /// Looks a translation up: the exact pair if stored; else the first
    /// entry in the requested language; else the default; else nothing.
    pub fn get_unicode(&self, lang: u16, cntry: u16) -> (r: Option<MluResult>)
        ensures
            match (r, lookup(self.entries(), self.default_entry(), lang, cntry)) {
                (Some(res), Some(t)) => {
                    &&& res.string@ == t.2
                    &&& res.obtained_language@ == word_bytes(t.0)
                    &&& res.obtained_country@ == word_bytes(t.1)
                },
                (None, None) => true,
                _ => false,
            },
    {
        match self.search_for_entry(lang, cntry) {
            Some(value) => Some(
                MluResult {
                    string: value.clone(),
                    obtained_language: str_from_u16(lang),
                    obtained_country: str_from_u16(cntry),
                },
            ),
            None => {
                let mut i: usize = 0;
                while i < self.list.len()
                    invariant
                        i <= self.list@.len(),
                        find_pair(self.entries(), lang, cntry) is None,
                        forall|j: int| 0 <= j < i ==> (#[trigger] self.list@[j]).lang != lang,
                    decreases self.list@.len() - i,
                {
                    if self.list[i].lang == lang {
                        proof {
                            lemma_find_lang_split(self.list@, lang, i as int);
                            assert(self.list@.skip(i as int).len() == self.list@.len() - i);
                            assert(self.list@.skip(i as int)[0] == self.list@[i as int]);
                            assert(find_lang(self.list@.skip(i as int), lang) == Some(
                                entry_rec(self.list@[i as int]),
                            ));
                            assert(find_pair(self.entries(), lang, cntry) is None);
                            assert(lookup(self.entries(), self.default_entry(), lang, cntry)
                                == Some(entry_rec(self.list@[i as int])));
                        }
                        return Some(
                            MluResult {
                                string: self.list[i].string.clone(),
                                obtained_language: str_from_u16(self.list[i].lang),
                                obtained_country: str_from_u16(self.list[i].cntry),
                            },
                        );
                    }
                    i = i + 1;
                }
                proof {
                    lemma_find_lang_split(self.list@, lang, self.list@.len() as int);
                    assert(self.list@.skip(self.list@.len() as int).len() == 0);
                }
                match &self.default {
                    Some(value) => Some(
                        MluResult {
                            string: value.string.clone(),
                            obtained_language: str_from_u16(value.lang),
                            obtained_country: str_from_u16(value.cntry),
                        },
                    ),
                    None => None,
                }
            },
        }
    }

    /// Looks a translation up as [`Mlu::get_unicode`] does, and then
    /// refuses a found text that is not plain ASCII as invalid data.
    pub fn get_ascii(&self, lang: u16, cntry: u16) -> (r: Result<Option<MluResult>, CodecError>)
        ensures
            match (r, lookup(self.entries(), self.default_entry(), lang, cntry)) {
                (Ok(Some(res)), Some(t)) => {
                    &&& is_ascii_chars(t.2)
                    &&& res.string@ == t.2
                    &&& res.obtained_language@ == word_bytes(t.0)
                    &&& res.obtained_country@ == word_bytes(t.1)
                },
                (Err(e), Some(t)) => e == CodecError::InvalidData && !is_ascii_chars(t.2),
                (Ok(None), None) => true,
                _ => false,
            },
    {
        let utf = self.get_unicode(lang, cntry);
        if let Some(value) = &utf {
            if !value.string.is_ascii() {
                return Err(CodecError::InvalidData);
            }
        }
        Ok(utf)
    }

    /// Looks a translation up under two-byte codes, as
    /// [`Mlu::get_unicode`] does under packed words.
    pub fn get_translation(&self, lang: [u8; 2], cntry: [u8; 2]) -> (r: Option<MluResult>)
        ensures
            match (
                r,
                lookup(
                    self.entries(),
                    self.default_entry(),
                    code_word(Some(lang)),
                    code_word(Some(cntry)),
                ),
            ) {
                (Some(res), Some(t)) => {
                    &&& res.string@ == t.2
                    &&& res.obtained_language@ == word_bytes(t.0)
                    &&& res.obtained_country@ == word_bytes(t.1)
                },
                (None, None) => true,
                _ => false,
            },
    {
        let lang = str_to_u16(Some(lang));
        let cntry = str_to_u16(Some(cntry));
        match self.get_unicode(lang, cntry) {
            None => None,
            Some(utf) => Some(
                MluResult {
                    string: utf.string,
                    obtained_language: utf.obtained_language,
                    obtained_country: utf.obtained_country,
                },
            ),
        }
    }

    /// How many translations are stored.
    pub fn get_translation_count(&self) -> (r: usize)
        ensures
            r == self.entries().len(),
    {
        self.list.len()
    }

    /// The entry at the given position, its codes unpacked to bytes.
    pub fn get_translation_codes(&self, index: usize) -> (r: Option<MluEntry>)
        ensures
            match r {
                Some(e) => {
                    &&& index < self.entries().len()
                    &&& e.string@ == self.entries()[index as int].string@
                    &&& e.lang@ == word_bytes(self.entries()[index as int].lang)
                    &&& e.cntry@ == word_bytes(self.entries()[index as int].cntry)
                },
                None => index >= self.entries().len(),
            },
    {
        if index < self.list.len() {
            let entry = &self.list[index];
            Some(
                MluEntry {
                    string: entry.string.clone(),
                    lang: str_from_u16(entry.lang),
                    cntry: str_from_u16(entry.cntry),
                },
            )
        } else {
            None
        }
    }
}

} // verus!
