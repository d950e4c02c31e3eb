//! Translated interface texts.
//!
//! Each language pack is a JSON object; a key such as `common.success`
//! names a path of object fields, and the text found there may hold
//! `{name}` placeholders that are filled in from parameters.
use vstd::prelude::*;
use crate::json::{field_lookup, lookup_field, JsonValue};
use crate::keyed::{
    distinct_keys, find_key, keyed_map, lemma_keyed_index, lemma_keyed_push, lemma_keyed_update,
};
use crate::storage::query::{assign_field, distinct_fields, field_map};
use crate::text::{
    chars_of, lemma_split_on_nonempty, owned, replace_all, replace_chars, split_chars, split_on,
    string_of,
};
use crate::utils::language::{spec_tag, Language};

verus! {

/// The value reached from `v` by following the object fields `parts`.
pub open spec fn descend(v: JsonValue, parts: Seq<Seq<char>>) -> Option<JsonValue>
    decreases parts.len(),
{
    if parts.len() == 0 {
        Some(v)
    } else {
        match v {
            JsonValue::Object(f) => match field_lookup(f@, parts[0]) {
                Some(c) => descend(c, parts.drop_first()),
                None => None,
            },
            _ => None,
        }
    }
}

/// The text that a dotted key names in a language pack, if it names one.
pub open spec fn nested_text(messages: Seq<(String, JsonValue)>, key: Seq<char>) -> Option<Seq<char>> {
    let parts = split_on(key, '.');
    match field_lookup(messages, parts[0]) {
        Some(v) => match descend(v, parts.drop_first()) {
            Some(JsonValue::String(s)) => Some(s@),
            _ => None,
        },
        None => None,
    }
}

/// The placeholder of a parameter: its name in braces.
pub open spec fn placeholder(name: Seq<char>) -> Seq<char> {
    seq!['{'] + name + seq!['}']
}

/// `text` with each parameter's placeholder replaced by its value, the
/// parameters taken in order.
pub open spec fn interpolated(text: Seq<char>, params: Seq<(String, String)>) -> Seq<char>
    decreases params.len(),
{
    if params.len() == 0 {
        text
    } else {
        replace_all(
            interpolated(text, params.drop_last()),
            placeholder(params.last().0@),
            params.last().1@,
        )
    }
}

/// `interpolated`, or the text unchanged without parameters.
pub open spec fn interpolated_opt(text: Seq<char>, params: Option<Seq<(String, String)>>) -> Seq<
    char,
> {
    match params {
        Some(p) => interpolated(text, p),
        None => text,
    }
}

/// The text of `key` in the pack of language `lang`.
pub open spec fn text_for(
    packs: Map<Seq<char>, Vec<(String, JsonValue)>>,
    lang: Seq<char>,
    key: Seq<char>,
) -> Option<Seq<char>> {
    if packs.contains_key(lang) {
        nested_text(packs[lang]@, key)
    } else {
        None
    }
}

/// What `get_text` gives: the text in the language asked for, else the
/// Chinese text, else the key itself.
pub open spec fn resolved_text(
    packs: Map<Seq<char>, Vec<(String, JsonValue)>>,
    lang: Seq<char>,
    key: Seq<char>,
    params: Option<Seq<(String, String)>>,
) -> Seq<char> {
    match text_for(packs, lang, key) {
        Some(t) => interpolated_opt(t, params),
        None => match text_for(packs, "zh-CN"@, key) {
            Some(t) => interpolated_opt(t, params),
            None => key,
        },
    }
}

/// Every pack's fields are distinct.
pub open spec fn packs_ok(packs: Seq<(String, Vec<(String, JsonValue)>)>) -> bool {
    &&& distinct_keys(packs)
    &&& forall|i: int| 0 <= i < packs.len() ==> distinct_fields(#[trigger] packs[i].1@)
}

/// The language packs, one per language tag.
#[derive(Debug)]
pub struct I18nManager {
    packs: Vec<(String, Vec<(String, JsonValue)>)>,
}

impl View for I18nManager {
    type V = Map<Seq<char>, Vec<(String, JsonValue)>>;

    closed spec fn view(&self) -> Map<Seq<char>, Vec<(String, JsonValue)>> {
        keyed_map(self.packs@)
    }
}

impl I18nManager {
    pub closed spec fn wf(&self) -> bool {
        packs_ok(self.packs@)
    }

    /// No pack loaded.
    pub fn new() -> (r: Self)
        ensures
            r.wf(),
            r@ == Map::<Seq<char>, Vec<(String, JsonValue)>>::empty(),
    {
        let r = I18nManager { packs: Vec::new() };
        assert(keyed_map(r.packs@) =~= Map::<Seq<char>, Vec<(String, JsonValue)>>::empty());
        r
    }

    /// The text under a dotted key in a pack: the first part names a
    /// top-level field, each further part a field of the object reached so
    /// far; only a string is a text.
    pub fn get_nested_value(messages: &Vec<(String, JsonValue)>, key: &str) -> (r: Option<String>)
        ensures
            match r {
                Some(t) => nested_text(messages@, key@) == Some(t@),
                None => nested_text(messages@, key@) is None,
            },
    {
        let kc = chars_of(key);
        let parts = split_chars(&kc, '.');
        let ghost sp = split_on(key@, '.');
        proof {
            lemma_split_on_nonempty(key@, '.');
        }
        let first = match lookup_field(messages, &parts[0]) {
            Some(v) => v,
            None => {
                return None;
            },
        };
        let mut current: &JsonValue = first;
        let mut i: usize = 1;
        proof {
            assert(sp.drop_first() =~= sp.skip(1));
        }
        while i < parts.len()
            invariant
                1 <= i <= parts@.len(),
                parts@.len() == sp.len(),
                forall|k: int| 0 <= k < parts@.len() ==> #[trigger] parts@[k]@ == sp[k],
                descend(*first, sp.skip(1)) == descend(*current, sp.skip(i as int)),
                sp == split_on(key@, '.'),
                sp.drop_first() == sp.skip(1),
                field_lookup(messages@, sp[0]) == Some(*first),
            decreases parts.len() - i,
        {
            proof {
                assert(sp.skip(i as int).drop_first() =~= sp.skip(i + 1));
                assert(sp.skip(i as int)[0] == sp[i as int]);
            }
            match current {
                JsonValue::Object(f) => {
                    match lookup_field(f, &parts[i]) {
                        Some(c) => {
                            current = c;
                        },
                        None => {
                            return None;
                        },
                    }
                },
                _ => {
                    return None;
                },
            }
            i += 1;
        }
        proof {
            assert(sp.skip(i as int).len() == 0);
        }
        match current {
            JsonValue::String(s) => Some(s.clone()),
            _ => None,
        }
    }

    /// Replaces each parameter's `{name}` placeholder by its value, the
    /// parameters taken in order.
    pub fn interpolate_params(text: &str, params: Option<&Vec<(String, String)>>) -> (r: String)
        ensures
            r@ == interpolated_opt(
                text@,
                match params {
                    Some(p) => Some(p@),
                    None => None,
                },
            ),
    {
        match params {
            None => owned(text),
            Some(ps) => {
                let mut result = chars_of(text);
                let mut i: usize = 0;
                while i < ps.len()
                    invariant
                        i <= ps@.len(),
                        result@ == interpolated(text@, ps@.take(i as int)),
                    decreases ps.len() - i,
                {
                    let mut pat: Vec<char> = Vec::new();
                    pat.push('{');
                    let name = chars_of(ps[i].0.as_str());
                    let mut j: usize = 0;
                    while j < name.len()
                        invariant
                            j <= name@.len(),
                            pat@ == seq!['{'] + name@.take(j as int),
                        decreases name.len() - j,
                    {
                        pat.push(name[j]);
                        assert(name@.take(j + 1) =~= name@.take(j as int).push(name@[j as int]));
                        j += 1;
                    }
                    pat.push('}');
                    proof {
                        assert(name@.take(name@.len() as int) =~= name@);
                        assert(pat@ =~= placeholder(ps@[i as int].0@));
                        let t = ps@.take(i + 1);
                        assert(t.drop_last() =~= ps@.take(i as int));
                        assert(t.last() == ps@[i as int]);
                    }
                    let value = chars_of(ps[i].1.as_str());
                    result = replace_chars(&result, &pat, &value);
                    i += 1;
                }
                assert(ps@.take(ps@.len() as int) =~= ps@);
                string_of(&result)
            },
        }
    }

    /// Puts `messages` in as the pack of `language`, replacing any pack it
    /// had.
    pub fn load_language_pack(&mut self, language: Language, messages: Vec<(String, JsonValue)>)
        requires
            old(self).wf(),
            distinct_fields(messages@),
        ensures
            final(self).wf(),
            final(self)@ == old(self)@.insert(spec_tag(language), messages),
    {
        let ghost s0 = self.packs@;
        let code = language.to_tag_string();
        let p = (code, messages);
        match find_key(&self.packs, language.tag()) {
            Some(i) => {
                self.packs.set(i, p);
                proof {
                    lemma_keyed_update(s0, i as int, p);
                    assert forall|k: int| 0 <= k < self.packs@.len() implies distinct_fields(
                        #[trigger] self.packs@[k].1@,
                    ) by {
                        if k != i {
                            assert(self.packs@[k] == s0[k]);
                        }
                    }
                }
            },
            None => {
                self.packs.push(p);
                proof {
                    lemma_keyed_push(s0, p);
                    assert forall|k: int| 0 <= k < self.packs@.len() implies distinct_fields(
                        #[trigger] self.packs@[k].1@,
                    ) by {
                        if k < s0.len() {
                            assert(self.packs@[k] == s0[k]);
                        }
                    }
                }
            },
        }
    }

    /// Loads the Chinese and the English packs (already read from their
    /// JSON files).
    pub fn initialize(
        &mut self,
        zh_cn: Vec<(String, JsonValue)>,
        en_us: Vec<(String, JsonValue)>,
    ) -> (r: Result<(), String>)
        requires
            old(self).wf(),
            distinct_fields(zh_cn@),
            distinct_fields(en_us@),
        ensures
            r is Ok,
            final(self).wf(),
            final(self)@ == old(self)@.insert("zh-CN"@, zh_cn).insert("en-US"@, en_us),
    {
        self.load_language_pack(Language::ZhCN, zh_cn);
        self.load_language_pack(Language::EnUS, en_us);
        Ok(())
    }

    /// Drops every pack and loads the two packs again.
    pub fn reload(
        &mut self,
        zh_cn: Vec<(String, JsonValue)>,
        en_us: Vec<(String, JsonValue)>,
    ) -> (r: Result<(), String>)
        requires
            distinct_fields(zh_cn@),
            distinct_fields(en_us@),
        ensures
            r is Ok,
            final(self).wf(),
            final(self)@ == Map::<Seq<char>, Vec<(String, JsonValue)>>::empty().insert(
                "zh-CN"@,
                zh_cn,
            ).insert("en-US"@, en_us),
    {
        *self = I18nManager::new();
        self.initialize(zh_cn, en_us)
    }

    /// Adds (or replaces) one text in a language's pack, making the pack
    /// when it is missing.
    pub fn add_message(&mut self, lang_code: &str, key: &str, value: &str) -> (r: Result<(), String>)
        requires
            old(self).wf(),
        ensures
            r is Ok,
            final(self).wf(),
            final(self)@.dom() == old(self)@.dom().insert(lang_code@),
            forall|l: Seq<char>| #[trigger]
                old(self)@.contains_key(l) && l != lang_code@ ==> final(self)@[l] == old(self)@[l],
            ({
                let before = if old(self)@.contains_key(lang_code@) {
                    field_map(old(self)@[lang_code@]@)
                } else {
                    Map::<Seq<char>, JsonValue>::empty()
                };
                let after = field_map(final(self)@[lang_code@]@);
                &&& after.dom() == before.dom().insert(key@)
                &&& forall|k: Seq<char>| #[trigger]
                    before.contains_key(k) && k != key@ ==> after[k] == before[k]
                &&& after[key@] matches JsonValue::String(t) && t@ == value@
            }),
    {
        let ghost s0 = self.packs@;
        let v = JsonValue::String(owned(value));
        match find_key(&self.packs, lang_code) {
            Some(i) => {
                proof {
                    lemma_keyed_index(s0, i as int);
                }
                let (code, mut pack) = self.packs.remove(i);
                assign_field(&mut pack, owned(key), v);
                let ghost p = (code, pack);
                self.packs.insert(i, (code, pack));
                proof {
                    assert(self.packs@ =~= s0.update(i as int, p));
                    lemma_keyed_update(s0, i as int, p);
                    assert forall|k: int| 0 <= k < self.packs@.len() implies distinct_fields(
                        #[trigger] self.packs@[k].1@,
                    ) by {
                        if k != i {
                            assert(self.packs@[k] == s0[k]);
                        }
                    }
                    assert(keyed_map(self.packs@).dom() =~= keyed_map(s0).dom().insert(lang_code@));
                }
            },
            None => {
                let mut pack: Vec<(String, JsonValue)> = Vec::new();
                proof {
                    assert(field_map(pack@) =~= Map::<Seq<char>, JsonValue>::empty());
                }
                assign_field(&mut pack, owned(key), v);
                let p = (owned(lang_code), pack);
                self.packs.push(p);
                proof {
                    lemma_keyed_push(s0, p);
                    assert forall|k: int| 0 <= k < self.packs@.len() implies distinct_fields(
                        #[trigger] self.packs@[k].1@,
                    ) by {
                        if k < s0.len() {
                            assert(self.packs@[k] == s0[k]);
                        }
                    }
                    assert(keyed_map(self.packs@).dom() =~= keyed_map(s0).dom().insert(lang_code@));
                }
            },
        }
        Ok(())
    }

    /// The text of `key` in the pack of `lang_code`, if it is there.
    pub fn get_text_for_language(&self, lang_code: &str, key: &str) -> (r: Option<String>)
        requires
            self.wf(),
        ensures
            match r {
                Some(t) => text_for(self@, lang_code@, key@) == Some(t@),
                None => text_for(self@, lang_code@, key@) is None,
            },
    {
        match find_key(&self.packs, lang_code) {
            Some(i) => {
                proof {
                    lemma_keyed_index(self.packs@, i as int);
                }
                Self::get_nested_value(&self.packs[i].1, key)
            },
            None => None,
        }
    }

    /// The text of `key` in `language`, else in Chinese, else the key
    /// itself; placeholders are filled from `params`.
    pub fn get_text(&self, language: Language, key: &str, params: Option<&Vec<(String, String)>>) -> (r:
        String)
        requires
            self.wf(),
        ensures
            r@ == resolved_text(
                self@,
                spec_tag(language),
                key@,
                match params {
                    Some(p) => Some(p@),
                    None => None,
                },
            ),
    {
        match self.get_text_for_language(language.tag(), key) {
            Some(text) => Self::interpolate_params(text.as_str(), params),
            None => match self.get_text_for_language("zh-CN", key) {
                Some(text) => Self::interpolate_params(text.as_str(), params),
                None => owned(key),
            },
        }
    }

    /// Whether `key` has a text in `language` or in Chinese.
    pub fn has_key(&self, language: Language, key: &str) -> (r: bool)
        requires
            self.wf(),
        ensures
            r == (text_for(self@, spec_tag(language), key@) is Some || text_for(
                self@,
                "zh-CN"@,
                key@,
            ) is Some),
    {
        self.get_text_for_language(language.tag(), key).is_some()
            || self.get_text_for_language("zh-CN", key).is_some()
    }

    /// The tags of the loaded packs, each once.
    pub fn get_loaded_languages(&self) -> (r: Vec<String>)
        requires
            self.wf(),
        ensures
            forall|i: int, j: int| 0 <= i < j < r@.len() ==> r@[i]@ != r@[j]@,
            forall|i: int| 0 <= i < r@.len() ==> self@.contains_key(#[trigger] r@[i]@),
            forall|k: Seq<char>| #[trigger]
                self@.contains_key(k) ==> exists|i: int| 0 <= i < r@.len() && r@[i]@ == k,
    {
        let mut out: Vec<String> = Vec::new();
        let mut i: usize = 0;
        while i < self.packs.len()
            invariant
                distinct_keys(self.packs@),
                i <= self.packs@.len(),
                out@.len() == i,
                forall|j: int| 0 <= j < i ==> (#[trigger] out@[j])@ == self.packs@[j].0@,
            decreases self.packs.len() - i,
        {
            out.push(self.packs[i].0.clone());
            i += 1;
        }
        proof {
            let s = self.packs@;
            assert forall|a: int, b: int| 0 <= a < b < out@.len() implies out@[a]@ != out@[b]@ by {
                assert(s[a].0@ != s[b].0@);
            }
            assert forall|a: int| 0 <= a < out@.len() implies keyed_map(s).contains_key(
                #[trigger] out@[a]@,
            ) by {
                lemma_keyed_index(s, a);
            }
            assert forall|k: Seq<char>| #[trigger] keyed_map(s).contains_key(k) implies exists|
                a: int,
            | 0 <= a < out@.len() && out@[a]@ == k by {
                let a = choose|a: int| 0 <= a < s.len() && s[a].0@ == k;
                assert(out@[a]@ == k);
            }
        }
        out
    }
}

} // verus!
