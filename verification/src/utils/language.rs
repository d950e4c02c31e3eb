//! The interface language: Simplified Chinese or US English.
use vstd::prelude::*;
use crate::text::{all_ascii, ascii_lower, chars_of, owned, str_eq, str_lowercase, to_lowercase};

verus! {

/// Supported UI languages.
#[derive(Debug, Clone, Copy, PartialEq, Eq, Structural)]
pub enum Language {
    /// Simplified Chinese (the default)
    ZhCN,
    /// US English
    EnUS,
}

/// BCP-47 tag of a language.
pub open spec fn spec_tag(l: Language) -> Seq<char> {
    match l {
        Language::ZhCN => "zh-CN"@,
        Language::EnUS => "en-US"@,
    }
}

/// The lower-cased names that mean English.
pub open spec fn english_name(l: Seq<char>) -> bool {
    l == "en-us"@ || l == "en"@ || l == "english"@ || l == "英文"@
}

/// The lower-cased names that mean Chinese.
pub open spec fn chinese_name(l: Seq<char>) -> bool {
    l == "zh-cn"@ || l == "zh"@ || l == "chinese"@ || l == "中文"@
}

impl Language {
    /// Reads a language name in any case; a name that is not known gives
    /// Chinese.
    pub fn from_tag_lossy(s: &str) -> (r: Self)
        ensures
            r == (if english_name(str_lowercase(s@)) {
                Language::EnUS
            } else {
                Language::ZhCN
            }),
            all_ascii(s@) ==> r == (if english_name(s@.map_values(|c: char| ascii_lower(c))) {
                Language::EnUS
            } else {
                Language::ZhCN
            }),
    {
        let lower = to_lowercase(s);
        let l = chars_of(lower.as_str());
        proof {
            reveal_strlit("en-us");
            reveal_strlit("en");
            reveal_strlit("english");
            reveal_strlit("英文");
            reveal_strlit("zh-cn");
            reveal_strlit("zh");
            reveal_strlit("chinese");
            reveal_strlit("中文");
            assert(chinese_name(l@) ==> !english_name(l@)) by {
                if chinese_name(l@) && english_name(l@) {
                    assert(l@[0] == 'z' || l@[0] == 'c' || l@[0] == '中');
                    assert(l@[0] == 'e' || l@[0] == '英');
                }
            }
        }
        if str_eq("zh-cn", &l) || str_eq("zh", &l) || str_eq("chinese", &l) || str_eq("中文", &l) {
            Language::ZhCN
        } else if str_eq("en-us", &l) || str_eq("en", &l) || str_eq("english", &l) || str_eq(
            "英文",
            &l,
        ) {
            Language::EnUS
        } else {
            Language::ZhCN
        }
    }

    /// BCP-47 tag of the language.
    pub fn tag(&self) -> (r: &'static str)
        ensures
            r@ == spec_tag(*self),
    {
        match self {
            Language::ZhCN => "zh-CN",
            Language::EnUS => "en-US",
        }
    }

    /// The language's own name for itself.
    pub fn display_name(&self) -> (r: &'static str)
        ensures
            r@ == (match *self {
                Language::ZhCN => "简体中文"@,
                Language::EnUS => "English"@,
            }),
    {
        match self {
            Language::ZhCN => "简体中文",
            Language::EnUS => "English",
        }
    }

    /// Every supported language, Chinese first.
    pub fn all() -> (r: Vec<Language>)
        ensures
            r@ == seq![Language::ZhCN, Language::EnUS],
    {
        let mut v = Vec::new();
        v.push(Language::ZhCN);
        v.push(Language::EnUS);
        v
    }

    /// The tag as an owned string (what `to_string` gives).
    pub fn to_tag_string(&self) -> (r: String)
        ensures
            r@ == spec_tag(*self),
    {
        owned(self.tag())
    }
}

impl Default for Language {
    fn default() -> (r: Self)
        ensures
            r == Language::ZhCN,
    {
        Language::ZhCN
    }
}

/// Holds the current interface language.
#[derive(Debug, Clone, Copy)]
pub struct LanguageManager {
    pub current: Language,
}

impl LanguageManager {
    /// Starts in the default language, Chinese.
    pub fn new() -> (r: Self)
        ensures
            r.current == Language::ZhCN,
    {
        LanguageManager { current: Language::ZhCN }
    }

    /// Switches the language; always succeeds.
    pub fn set_language(&mut self, lang: Language) -> (r: bool)
        ensures
            r,
            final(self).current == lang,
    {
        self.current = lang;
        true
    }

    pub fn get_language(&self) -> (r: Language)
        ensures
            r == self.current,
    {
        self.current
    }

    /// Switches to the language a name stands for (see `from_tag_lossy`).
    pub fn set_language_from_tag_lossy(&mut self, lang_str: &str) -> (r: bool)
        ensures
            r,
            final(self).current == (if english_name(str_lowercase(lang_str@)) {
                Language::EnUS
            } else {
                Language::ZhCN
            }),
    {
        let lang = Language::from_tag_lossy(lang_str);
        self.set_language(lang)
    }

    /// The tag of the current language.
    pub fn get_language_string(&self) -> (r: String)
        ensures
            r@ == spec_tag(self.current),
    {
        self.current.to_tag_string()
    }

    pub fn is_chinese(&self) -> (r: bool)
        ensures
            r == (self.current == Language::ZhCN),
    {
        match self.current {
            Language::ZhCN => true,
            Language::EnUS => false,
        }
    }

    pub fn is_english(&self) -> (r: bool)
        ensures
            r == (self.current == Language::EnUS),
    {
        match self.current {
            Language::ZhCN => false,
            Language::EnUS => true,
        }
    }
}

impl Default for LanguageManager {
    fn default() -> (r: Self)
        ensures
            r.current == Language::ZhCN,
    {
        Self::new()
    }
}

/// A language's own tag is ASCII, and lowered it names English exactly
/// for English: so `from_tag_lossy` gives each language back from its tag.
pub proof fn law_tag_roundtrip(lang: Language)
    ensures
        all_ascii(spec_tag(lang)),
        english_name(spec_tag(lang).map_values(|c: char| ascii_lower(c))) <==> lang
            == Language::EnUS,
{
    reveal_strlit("zh-CN");
    reveal_strlit("en-US");
    reveal_strlit("en-us");
    reveal_strlit("en");
    reveal_strlit("english");
    reveal_strlit("英文");
    let t = spec_tag(lang);
    let l = t.map_values(|c: char| ascii_lower(c));
    if lang == Language::EnUS {
        assert(l =~= "en-us"@);
    } else {
        assert(l[0] == 'z');
        assert(l.len() == 5);
    }
}

/// A supported language as the interface lists it.
#[derive(Debug, Clone)]
pub struct LanguageInfo {
    /// the tag, such as `zh-CN`
    pub code: String,
    /// the language's name for itself
    pub name: String,
}

/// The supported languages with their tags and names, Chinese first.
pub fn supported_languages() -> (r: Vec<LanguageInfo>)
    ensures
        r@.len() == 2,
        r@[0].code@ == "zh-CN"@ && r@[0].name@ == "简体中文"@,
        r@[1].code@ == "en-US"@ && r@[1].name@ == "English"@,
{
    let all = Language::all();
    let mut out: Vec<LanguageInfo> = Vec::new();
    let mut i: usize = 0;
    while i < all.len()
        invariant
            all@ == seq![Language::ZhCN, Language::EnUS],
            i <= all@.len(),
            out@.len() == i,
            forall|j: int|
                0 <= j < i ==> (#[trigger] out@[j]).code@ == spec_tag(all@[j]) && out@[j].name@
                    == (match all@[j] {
                    Language::ZhCN => "简体中文"@,
                    Language::EnUS => "English"@,
                }),
        decreases all.len() - i,
    {
        let lang = all[i];
        out.push(LanguageInfo { code: owned(lang.tag()), name: owned(lang.display_name()) });
        i += 1;
    }
    out
}

} // verus!
