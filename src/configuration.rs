//! Configuration values that the library computes with: bus topic names
//! and the keyword table handed to the wake-word classifier.

use vstd::prelude::*;

verus! {

// zenoh topic
pub const VOICE_PROBABILITY_TOPIC: &'static str = "telemetry/voice_probability";

pub const VOICE_PROBABILITY_PRETTY_PRINT_TOPIC: &'static str = "telemetry/voice_probability_pretty_print";

pub const WAKE_WORD_DETECTION_TOPIC: &'static str = "event/wake_word_detection";

pub const WAKE_WORD_RECORDING_STARTED_TOPIC: &'static str = "event/recording_started";

pub const WAKE_WORD_RECORDING_END_TOPIC: &'static str = "event/wake_word_detection_end";

pub const WAKE_WORD_RECORDING_AUDIO_WAV_FILE: &'static str = "event/wake_word_audio_wav";

pub const TRANSCRIPT_TOPIC: &'static str = "event/transcript";

pub const PRIVACY_MODE_TOPIC: &'static str = "control/privacy_mode";

/// `name` under `prefix`, separated by a slash.
pub open spec fn topic_path(prefix: Seq<char>, name: Seq<char>) -> Seq<char> {
    prefix + "/"@ + name
}

/// Application settings.
#[derive(Clone, Debug)]
pub struct AppConfig {
    pub zenoh_prefix: String,
    /// System prompt for the transcriber, by wake word.
    pub system_prompts: std::collections::HashMap<String, String>,
}

impl AppConfig {
    fn topic(&self, name: &str) -> (r: String)
        ensures
            r@ == topic_path(self.zenoh_prefix@, name@),
    {
        let mut r = self.zenoh_prefix.clone();
        r.append("/");
        r.append(name);
        r
    }

    pub fn get_voice_probability_topic(&self) -> (r: String)
        ensures
            r@ == topic_path(self.zenoh_prefix@, VOICE_PROBABILITY_TOPIC@),
    {
        self.topic(VOICE_PROBABILITY_TOPIC)
    }

    pub fn get_voice_probability_pretty_print_topic(&self) -> (r: String)
        ensures
            r@ == topic_path(self.zenoh_prefix@, VOICE_PROBABILITY_PRETTY_PRINT_TOPIC@),
    {
        self.topic(VOICE_PROBABILITY_PRETTY_PRINT_TOPIC)
    }

    pub fn get_wake_word_detected_topic(&self) -> (r: String)
        ensures
            r@ == topic_path(self.zenoh_prefix@, WAKE_WORD_DETECTION_TOPIC@),
    {
        self.topic(WAKE_WORD_DETECTION_TOPIC)
    }

    pub fn get_wake_word_recording_started_topic(&self) -> (r: String)
        ensures
            r@ == topic_path(self.zenoh_prefix@, WAKE_WORD_RECORDING_STARTED_TOPIC@),
    {
        self.topic(WAKE_WORD_RECORDING_STARTED_TOPIC)
    }

    pub fn get_wake_word_recording_end_topic(&self) -> (r: String)
        ensures
            r@ == topic_path(self.zenoh_prefix@, WAKE_WORD_RECORDING_END_TOPIC@),
    {
        self.topic(WAKE_WORD_RECORDING_END_TOPIC)
    }

    pub fn get_wake_word_audio_recording_wav_topic(&self) -> (r: String)
        ensures
            r@ == topic_path(self.zenoh_prefix@, WAKE_WORD_RECORDING_AUDIO_WAV_FILE@),
    {
        self.topic(WAKE_WORD_RECORDING_AUDIO_WAV_FILE)
    }

    pub fn get_transcript_topic(&self) -> (r: String)
        ensures
            r@ == topic_path(self.zenoh_prefix@, TRANSCRIPT_TOPIC@),
    {
        self.topic(TRANSCRIPT_TOPIC)
    }

    pub fn get_privacy_mode_topic(&self) -> (r: String)
        ensures
            r@ == topic_path(self.zenoh_prefix@, PRIVACY_MODE_TOPIC@),
    {
        self.topic(PRIVACY_MODE_TOPIC)
    }
}

/// Credentials for the transcription service.
#[derive(Clone, Debug)]
pub struct WakeWordOpenaiConfig {
    pub api_key: String,
}

/// A keyword name and the path of its model file, as text.
pub type KeywordPairView = (Seq<char>, Seq<char>);

pub open spec fn pairs_view(s: Seq<(String, String)>) -> Seq<KeywordPairView> {
    s.map_values(|p: (String, String)| (p.0@, p.1@))
}

pub open spec fn names_view(s: Seq<String>) -> Seq<Seq<char>> {
    s.map_values(|k: String| k@)
}

/// The path that the first entry named `name` in `table` gives.
pub open spec fn lookup_path(table: Seq<KeywordPairView>, name: Seq<char>) -> Option<Seq<char>>
    decreases table.len(),
{
    if table.len() == 0 {
        None
    } else if table[0].0 == name {
        Some(table[0].1)
    } else {
        lookup_path(table.drop_first(), name)
    }
}

/// Each name of `names` with its path from `table`, in order; `Err` with the
/// first name that `table` lacks.
pub open spec fn resolve_names(names: Seq<Seq<char>>, table: Seq<KeywordPairView>) -> Result<
    Seq<KeywordPairView>,
    Seq<char>,
>
    decreases names.len(),
{
    if names.len() == 0 {
        Ok(Seq::empty())
    } else {
        match resolve_names(names.drop_last(), table) {
            Err(missing) => Err(missing),
            Ok(pairs) => match lookup_path(table, names.last()) {
                None => Err(names.last()),
                Some(path) => Ok(pairs.push((names.last(), path))),
            },
        }
    }
}

/// Why the keyword table could not be built.
#[derive(Clone, Debug)]
pub enum KeywordError {
    /// A configured built-in keyword has no model file.
    NotBuiltIn(String),
}

fn find_path(table: &Vec<(String, String)>, name: &String) -> (r: Option<String>)
    ensures
        option_text(r) == lookup_path(pairs_view(table@), name@),
{
    let mut i: usize = 0;
    assert(pairs_view(table@).subrange(0, table@.len() as int) =~= pairs_view(table@));
    while i < table.len()
        invariant
            i <= table@.len(),
            lookup_path(pairs_view(table@), name@) == lookup_path(
                pairs_view(table@).subrange(i as int, table@.len() as int),
                name@,
            ),
        decreases table@.len() - i,
    {
        let ghost rest = pairs_view(table@).subrange(i as int, table@.len() as int);
        if table[i].0 == *name {
            return Some(table[i].1.clone());
        }
        assert(rest.drop_first() =~= pairs_view(table@).subrange(i + 1, table@.len() as int));
        i = i + 1;
    }
    None
}

pub open spec fn option_text(s: Option<String>) -> Option<Seq<char>> {
    match s {
        Some(t) => Some(t@),
        None => None,
    }
}

/// The keyword table: each configured built-in keyword with its model path
/// from `builtin_paths` (the first entry of that name), in order, followed
/// by the custom `keyword_paths`. Fails on the first built-in keyword that
/// `builtin_paths` lacks.
pub fn keyword_pairs(
    keywords: &Vec<String>,
    builtin_paths: &Vec<(String, String)>,
    keyword_paths: &Vec<(String, String)>,
) -> (r: Result<Vec<(String, String)>, KeywordError>)
    ensures
        match resolve_names(names_view(keywords@), pairs_view(builtin_paths@)) {
            Ok(pairs) => r is Ok && pairs_view(r->Ok_0@) == pairs + pairs_view(keyword_paths@),
            Err(missing) => r matches Err(KeywordError::NotBuiltIn(name)) && name@ == missing,
        },
{
    let mut selected_keywords: Vec<(String, String)> = Vec::new();
    let mut i: usize = 0;
    assert(names_view(keywords@.subrange(0, 0)) =~= Seq::<Seq<char>>::empty());
    assert(pairs_view(selected_keywords@) =~= Seq::<KeywordPairView>::empty());
    while i < keywords.len()
        invariant
            i <= keywords@.len(),
            resolve_names(names_view(keywords@.subrange(0, i as int)), pairs_view(builtin_paths@))
                == Ok::<Seq<KeywordPairView>, Seq<char>>(pairs_view(selected_keywords@)),
        decreases keywords@.len() - i,
    {
        let ghost names_i = names_view(keywords@.subrange(0, i as int));
        let ghost names_next = names_view(keywords@.subrange(0, i + 1));
        assert(names_next.drop_last() =~= names_i);
        assert(names_next.last() == keywords@[i as int]@);
        match find_path(builtin_paths, &keywords[i]) {
            Some(path) => {
                let ghost prev = selected_keywords@;
                let name = keywords[i].clone();
                selected_keywords.push((name, path));
                assert(pairs_view(selected_keywords@) =~= pairs_view(prev).push(
                    (keywords@[i as int]@, path@),
                ));
            },
            None => {
                assert(resolve_names(names_view(keywords@), pairs_view(builtin_paths@)) == Err::<
                    Seq<KeywordPairView>,
                    Seq<char>,
                >(keywords@[i as int]@)) by {
                    lemma_resolve_prefix_err(
                        names_view(keywords@),
                        pairs_view(builtin_paths@),
                        i as int + 1,
                    );
                    assert(names_view(keywords@).subrange(0, i + 1) =~= names_next);
                };
                return Err(KeywordError::NotBuiltIn(keywords[i].clone()));
            },
        }
        i = i + 1;
    }
    assert(keywords@.subrange(0, i as int) =~= keywords@);
    let n = keyword_paths.len();
    let ghost base = selected_keywords@;
    let mut j: usize = 0;
    assert(pairs_view(keyword_paths@.subrange(0, 0)) =~= Seq::<KeywordPairView>::empty());
    assert(pairs_view(base) + Seq::<KeywordPairView>::empty() =~= pairs_view(base));
    while j < n
        invariant
            n == keyword_paths@.len(),
            j <= n,
            pairs_view(selected_keywords@) == pairs_view(base) + pairs_view(
                keyword_paths@.subrange(0, j as int),
            ),
        decreases n - j,
    {
        let ghost prev = selected_keywords@;
        let k = keyword_paths[j].0.clone();
        let p = keyword_paths[j].1.clone();
        selected_keywords.push((k, p));
        assert(pairs_view(selected_keywords@) =~= pairs_view(prev).push(
            (keyword_paths@[j as int].0@, keyword_paths@[j as int].1@),
        ));
        assert(pairs_view(keyword_paths@.subrange(0, j + 1)) =~= pairs_view(
            keyword_paths@.subrange(0, j as int),
        ).push((keyword_paths@[j as int].0@, keyword_paths@[j as int].1@)));
        j = j + 1;
        assert(pairs_view(selected_keywords@) =~= pairs_view(base) + pairs_view(
            keyword_paths@.subrange(0, j as int),
        ));
    }
    assert(keyword_paths@.subrange(0, n as int) =~= keyword_paths@);
    Ok(selected_keywords)
}

/// A failure on a prefix is the failure of the whole.
proof fn lemma_resolve_prefix_err(names: Seq<Seq<char>>, table: Seq<KeywordPairView>, k: int)
    requires
        0 <= k <= names.len(),
        resolve_names(names.subrange(0, k), table) is Err,
    ensures
        resolve_names(names, table) == resolve_names(names.subrange(0, k), table),
    decreases names.len() - k,
{
    if k < names.len() {
        assert(names.subrange(0, k + 1).drop_last() =~= names.subrange(0, k));
        lemma_resolve_prefix_err(names, table, k + 1);
    } else {
        assert(names.subrange(0, k) =~= names);
    }
}

} // verus!
