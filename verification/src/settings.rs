//! Project settings: the configured trunk branch.
//!
//! Settings are one JSON object, `{"trunk": string|null}`, kept in a file
//! under the repository's control directory. Reading and writing the file is
//! the settings store's business (outside the verified library); this module
//! owns the format and the lazily-populated trunk value. An absent or
//! corrupt settings text means "no settings yet", never an error.

use vstd::prelude::*;

use crate::commitmsg::{skip_ws, trim_start_ix};
use crate::errors::GiError;
use crate::metadata::{escape_into, escaped, lemma_parse_escaped, parse_jstring_exec,
    parse_jstring_from};
use crate::prompt::Prompter;
use crate::text::{chars_to_string, matches_at, push_char, str_to_chars};

verus! {

/// The per-repository settings: the trunk branch that newly stacked
/// branches and pull requests target, once the operator has named it.
#[derive(Clone, Debug)]
pub struct ProjectSettings {
    trunk: Option<String>,
}

impl View for ProjectSettings {
    type V = Option<Seq<char>>;

    closed spec fn view(&self) -> Option<Seq<char>> {
        match self.trunk {
            Some(t) => Some(t@),
            None => None,
        }
    }
}

impl Default for ProjectSettings {
    /// Settings with no trunk configured yet.
    fn default() -> (r: Self)
        ensures
            r@ is None,
    {
        ProjectSettings { trunk: None }
    }
}

/// A capability that persists the settings; the concrete file store lives
/// outside the verified library. Nothing is promised of the write.
pub trait SettingsStore {
    /// Persists the given settings; a failed write is a backend failure.
    fn save(&mut self, settings: &ProjectSettings) -> (r: Result<(), GiError>)
        ensures
            r matches Err(e) ==> e == GiError::BackendFailure,
    ;
}

/// The opening brace and key of the settings object.
pub open spec fn settings_prefix() -> Seq<char> {
    "{\"trunk\":"@
}

/// The canonical text form of the settings: the trunk as a JSON string, or
/// `null` when none is configured.
pub open spec fn serialized_settings(trunk: Option<Seq<char>>) -> Seq<char> {
    match trunk {
        None => settings_prefix() + "null}"@,
        Some(t) => settings_prefix() + seq!['"'] + escaped(t) + seq!['"', '}'],
    }
}

/// The trunk value a settings text holds, or `None` when the text is not a
/// settings object. The shape is one JSON object with the one key, the
/// value a string or `null`; whitespace between the tokens is tolerated, as
/// in a hand-edited file.
pub open spec fn parse_settings(s: Seq<char>) -> Option<Option<Seq<char>>> {
    let klen = "\"trunk\""@.len() as int;
    let i0 = trim_start_ix(s, 0);
    if !(i0 < s.len() && s[i0] == '{') {
        None
    } else {
        let i1 = trim_start_ix(s, i0 + 1);
        if !(i1 + klen <= s.len() && s.subrange(i1, i1 + klen) == "\"trunk\""@) {
            None
        } else {
            let i2 = trim_start_ix(s, i1 + klen);
            if !(i2 < s.len() && s[i2] == ':') {
                None
            } else {
                let i3 = trim_start_ix(s, i2 + 1);
                if i3 < s.len() && s[i3] == '"' {
                    match parse_jstring_from(s, i3 + 1) {
                        None => None,
                        Some((t, k)) => {
                            let i4 = trim_start_ix(s, k);
                            if i4 < s.len() && s[i4] == '}' && trim_start_ix(s, i4 + 1)
                                == s.len() {
                                Some(Some(t))
                            } else {
                                None
                            }
                        },
                    }
                } else if i3 + 4 <= s.len() && s.subrange(i3, i3 + 4) == "null"@ {
                    let i4 = trim_start_ix(s, i3 + 4);
                    if i4 < s.len() && s[i4] == '}' && trim_start_ix(s, i4 + 1) == s.len() {
                        Some(None)
                    } else {
                        None
                    }
                } else {
                    None
                }
            }
        }
    }
}

/// Parsing a serialized settings text gives the trunk back unchanged.
pub proof fn lemma_settings_round_trip(trunk: Option<Seq<char>>)
    ensures
        parse_settings(serialized_settings(trunk)) == Some(trunk),
{
    let s = serialized_settings(trunk);
    let plen = settings_prefix().len() as int;
    reveal_strlit("{\"trunk\":");
    reveal_strlit("\"trunk\"");
    reveal_strlit("null}");
    reveal_strlit("null");
    match trunk {
        None => {
            assert forall|j: int| 0 <= j < s.len() implies s[j] == (settings_prefix()
                + "null}"@)[j] by {}
            assert(s.subrange(1, 1 + 7int) =~= "\"trunk\""@);
            assert(s.subrange(plen, plen + 4) =~= "null"@);
        },
        Some(t) => {
            let e = escaped(t);
            assert forall|j: int| 0 <= j < plen + 1 implies s[j] == (settings_prefix() + (
            seq!['"'] + (e + seq!['"', '}'])))[j] by {}
            assert(s.subrange(1, 1 + 7int) =~= "\"trunk\""@);
            assert(s.subrange(plen + 1, plen + 1 + e.len() + 1) =~= e + seq!['"']);
            lemma_parse_escaped(t, s, plen + 1);
            assert(s[plen + 1 + e.len() + 1] == '}');
        },
    }
}

/// The canonical settings text.
pub fn serialize_project_settings(settings: &ProjectSettings) -> (r: String)
    ensures
        r@ == serialized_settings(settings@),
{
    let mut out = String::from_str("{\"trunk\":");
    match &settings.trunk {
        None => {
            out.append("null}");
        },
        Some(t) => {
            push_char(&mut out, '"');
            escape_into(&mut out, t.as_str());
            push_char(&mut out, '"');
            push_char(&mut out, '}');
        },
    }
    proof {
        assert(out@ =~= serialized_settings(settings@));
    }
    out
}

/// The settings a stored text stands for. An absent text (`None`) or one
/// that is not a canonical settings object yields the default settings:
/// "no settings yet" is never an error.
pub fn get_project_settings(content: Option<&str>) -> (r: ProjectSettings)
    ensures
        content is None ==> r@ is None,
        content matches Some(c) ==> (match parse_settings(c@) {
            Some(trunk) => r@ == trunk,
            None => r@ is None,
        }),
{
    let c = match content {
        None => {
            return ProjectSettings { trunk: None };
        },
        Some(c) => c,
    };
    let v = str_to_chars(c);
    let i0 = skip_ws(&v, 0);
    if !(i0 < v.len() && v[i0] == '{') {
        return ProjectSettings { trunk: None };
    }
    let key = "\"trunk\"";
    let klen = key.unicode_len();
    let i1 = skip_ws(&v, i0 + 1);
    if !matches_at(&v, i1, key) {
        return ProjectSettings { trunk: None };
    }
    let i2 = skip_ws(&v, i1 + klen);
    if !(i2 < v.len() && v[i2] == ':') {
        return ProjectSettings { trunk: None };
    }
    let i3 = skip_ws(&v, i2 + 1);
    if i3 < v.len() && v[i3] == '"' {
        match parse_jstring_exec(&v, i3 + 1) {
            None => ProjectSettings { trunk: None },
            Some((t, k)) => {
                let i4 = skip_ws(&v, k);
                if i4 < v.len() && v[i4] == '}' && skip_ws(&v, i4 + 1) == v.len() {
                    ProjectSettings { trunk: Some(chars_to_string(&t)) }
                } else {
                    ProjectSettings { trunk: None }
                }
            },
        }
    } else {
        // a `null` trunk and a corrupt text both mean "no trunk yet"
        ProjectSettings { trunk: None }
    }
}

impl ProjectSettings {
    /// Sets the trunk and persists the settings through the store. The
    /// in-memory trunk is set even when persisting fails.
    pub fn set_trunk<S: SettingsStore>(&mut self, trunk: &String, store: &mut S) -> (r: Result<
        (),
        GiError,
    >)
        ensures
            final(self)@ == Some(trunk@),
            r matches Err(e) ==> e == GiError::BackendFailure,
    {
        self.trunk = Some(trunk.clone());
        store.save(self)
    }

    /// The configured trunk. On first use — when none is configured — the
    /// operator is asked, and the answer is recorded and persisted.
    pub fn get_trunk<P: Prompter, S: SettingsStore>(&mut self, prompter: &mut P, store: &mut S)
        -> (r: Result<String, GiError>)
        ensures
            old(self)@ matches Some(t) ==> final(self)@ == old(self)@ && (r matches Ok(rt) && rt@
                == t),
            old(self)@ is None ==> (r matches Ok(rt) ==> final(self)@ == Some(rt@)),
            r is Ok ==> final(self)@ is Some,
            r matches Err(e) ==> e == GiError::BackendFailure,
    {
        let existing = match &self.trunk {
            Some(t) => Some(t.clone()),
            None => None,
        };
        match existing {
            Some(t) => Ok(t),
            None => {
                let t = match prompter.ask_for_trunk() {
                    Ok(t) => t,
                    Err(e) => {
                        return Err(e);
                    },
                };
                match self.set_trunk(&t, store) {
                    Ok(()) => Ok(t),
                    Err(e) => Err(e),
                }
            },
        }
    }
}

} // verus!
