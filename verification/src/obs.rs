//! OBS over obs-websocket v5: what an `obs:` action asks OBS for, how the host authenticates, and
//! how OBS's events and answers update what the host knows of it. The connection itself, and the
//! JSON on it, are the caller's.
use vstd::prelude::*;
use vstd::utf8::encode_utf8;
use base64::Engine;
use sha2::Digest;

use crate::state::ObsState;
use crate::text::{chars_of, contains, contains_lit, is, same, strip_prefix, strip_prefix_lit, string_of, string_views};

verus! {

/// The SHA-256 digest of a byte string.
pub uninterp spec fn sha256_of(bytes: Seq<u8>) -> Seq<u8>;

/// The standard base64 encoding (with padding) of a byte string.
pub uninterp spec fn base64_of(bytes: Seq<u8>) -> Seq<char>;

/// `sha2::Sha256::digest`: claims only that the digest is a function of the bytes, 32 of them.
#[verifier::external_body]
pub(crate) fn sha256(bytes: &[u8]) -> (r: Vec<u8>)
    ensures
        r@ == sha256_of(bytes@),
        r@.len() == 32,
{
    sha2::Sha256::digest(bytes).to_vec()
}

/// `base64::engine::general_purpose::STANDARD.encode`: claims only that the text is a function of
/// the bytes. It panics when the encoded length would overflow, which `requires` rules out.
#[verifier::external_body]
fn base64_encode(bytes: &[u8]) -> (r: String)
    requires
        bytes@.len() <= usize::MAX / 2,
    ensures
        r@ == base64_of(bytes@),
{
    base64::engine::general_purpose::STANDARD.encode(bytes)
}

/// The authentication string obs-websocket v5 asks for:
/// base64(sha256(base64(sha256(password + salt)) + challenge)).
pub open spec fn auth_of(password: Seq<char>, salt: Seq<char>, challenge: Seq<char>) -> Seq<char> {
    let secret = base64_of(sha256_of(encode_utf8(password + salt)));
    base64_of(sha256_of(encode_utf8(secret + challenge)))
}

/// The authentication string for a password, and the salt and challenge OBS sent.
pub fn obs_auth(password: &str, salt: &str, challenge: &str) -> (r: String)
    ensures
        r@ == auth_of(password@, salt@, challenge@),
{
    let mut first = String::from_str(password);
    first.append(salt);
    let d1 = sha256(first.as_str().as_bytes());
    let secret = base64_encode(d1.as_slice());
    let mut second = String::from_str(secret.as_str());
    second.append(challenge);
    let d2 = sha256(second.as_str().as_bytes());
    base64_encode(d2.as_slice())
}

/// A request to OBS: its type, and the input or scene it names when it names one.
pub struct ObsRequest {
    pub request_type: &'static str,
    pub input_name: Option<String>,
    pub scene_name: Option<String>,
}

/// A request by its contents.
pub struct ObsRequestView {
    pub request_type: Seq<char>,
    pub input_name: Option<Seq<char>>,
    pub scene_name: Option<Seq<char>>,
}

impl View for ObsRequest {
    type V = ObsRequestView;

    open spec fn view(&self) -> ObsRequestView {
        ObsRequestView {
            request_type: self.request_type@,
            input_name: crate::config::opt_view(self.input_name),
            scene_name: crate::config::opt_view(self.scene_name),
        }
    }
}

/// A request with no data.
pub open spec fn plain(t: Seq<char>) -> ObsRequestView {
    ObsRequestView { request_type: t, input_name: None, scene_name: None }
}

/// What an `obs:` command asks OBS for: recording, streaming and the replay buffer toggle, a clip
/// is saved, the microphone (when there is one) is muted or unmuted, a named scene goes on air.
pub open spec fn request_for(cmd: Seq<char>, mic: Seq<char>) -> Result<ObsRequestView, Seq<char>> {
    if cmd == "record"@ {
        Ok(plain("ToggleRecord"@))
    } else if cmd == "stream"@ {
        Ok(plain("ToggleStream"@))
    } else if cmd == "replay"@ {
        Ok(plain("SaveReplayBuffer"@))
    } else if cmd == "replaybuffer"@ {
        Ok(plain("ToggleReplayBuffer"@))
    } else if cmd == "mic"@ {
        if mic.len() == 0 {
            Err("obs_sin_mic"@)
        } else {
            Ok(ObsRequestView { request_type: "ToggleInputMute"@, input_name: Some(mic), scene_name: None })
        }
    } else {
        match strip_prefix(cmd, "scene:"@) {
            Some(name) => if name.len() > 0 {
                Ok(ObsRequestView { request_type: "SetCurrentProgramScene"@, input_name: None, scene_name: Some(name) })
            } else {
                Err("obs_accion_desconocida"@)
            },
            None => Err("obs_accion_desconocida"@),
        }
    }
}

/// A request or why there is none, by its contents.
pub open spec fn request_result(r: Result<ObsRequest, &'static str>) -> Result<ObsRequestView, Seq<char>> {
    match r {
        Ok(q) => Ok(q@),
        Err(e) => Err(e@),
    }
}

/// A request with no data.
fn plain_exec(t: &'static str) -> (r: ObsRequest)
    ensures
        r@ == plain(t@),
{
    ObsRequest { request_type: t, input_name: None, scene_name: None }
}

/// What an `obs:` command asks OBS for, given the microphone OBS reported.
pub fn obs_request_for(cmd: &str, mic_name: &str) -> (r: Result<ObsRequest, &'static str>)
    ensures
        request_result(r) == request_for(cmd@, mic_name@),
{
    let c = chars_of(cmd);
    let s = c.as_slice();
    if is(s, "record") {
        Ok(plain_exec("ToggleRecord"))
    } else if is(s, "stream") {
        Ok(plain_exec("ToggleStream"))
    } else if is(s, "replay") {
        Ok(plain_exec("SaveReplayBuffer"))
    } else if is(s, "replaybuffer") {
        Ok(plain_exec("ToggleReplayBuffer"))
    } else if is(s, "mic") {
        if mic_name.is_empty() {
            Err("obs_sin_mic")
        } else {
            Ok(ObsRequest { request_type: "ToggleInputMute", input_name: Some(String::from_str(mic_name)), scene_name: None })
        }
    } else {
        match strip_prefix_lit(s, "scene:") {
            Some(name) => {
                if name.len() > 0 {
                    Ok(ObsRequest { request_type: "SetCurrentProgramScene", input_name: None, scene_name: Some(string_of(name.as_slice())) })
                } else {
                    Err("obs_accion_desconocida")
                }
            },
            None => Err("obs_accion_desconocida"),
        }
    }
}

/// What an `obs:` action sends, given what the host knows of OBS: the request, or why there is
/// none; a request is refused while OBS is not connected.
pub fn obs_action(cmd: &str, obs: &ObsState) -> (r: Result<ObsRequest, &'static str>)
    ensures
        request_result(r) == match request_for(cmd@, obs.mic_name@) {
            Err(e) => Err(e),
            Ok(q) => if obs.connected {
                Ok(q)
            } else {
                Err("obs_desconectado"@)
            },
        },
{
    let q = match obs_request_for(cmd, obs.mic_name.as_str()) {
        Ok(q) => q,
        Err(e) => {
            return Err(e);
        },
    };
    if !obs.connected {
        return Err("obs_desconectado");
    }
    Ok(q)
}

/// What the host reads of one message from OBS: an event (op 5) or an answer (op 7), its type,
/// and the fields of its data that the state is made of.
pub struct ObsMessage {
    pub op: Option<i64>,
    /// `eventType` of an event, `requestType` of an answer.
    pub kind: Option<String>,
    pub output_active: Option<bool>,
    pub input_name: Option<String>,
    pub input_muted: Option<bool>,
    pub scene_name: Option<String>,
    /// The `sceneName` of each entry of `scenes`, when it is a list.
    pub scenes: Option<Vec<Option<String>>>,
    pub current_program_scene_name: Option<String>,
    /// `mic1` to `mic4` of the special inputs.
    pub mics: Vec<Option<String>>,
    /// `(inputKind, inputName)` of each entry of `inputs`, when it is a list.
    pub inputs: Option<Vec<(Option<String>, Option<String>)>>,
}

/// The names of OBS's scenes in the order OBS shows them: it lists them bottom to top.
pub open spec fn scene_names(scenes: Option<Seq<Option<String>>>) -> Seq<Seq<char>>
    decreases match scenes {
        Some(s) => s.len(),
        None => 0,
    },
{
    match scenes {
        None => Seq::empty(),
        Some(s) => if s.len() == 0 {
            Seq::empty()
        } else {
            let rest = scene_names(Some(s.drop_first()));
            match s[0] {
                Some(n) => rest.push(n@),
                None => rest,
            }
        },
    }
}

/// The names of OBS's scenes in the order OBS shows them.
pub fn obs_scene_names(scenes: &Option<Vec<Option<String>>>) -> (r: Vec<String>)
    ensures
        string_views(r@) == scene_names(match scenes {
            Some(v) => Some(v@),
            None => None,
        }),
{
    let mut out: Vec<String> = Vec::new();
    let v = match scenes {
        Some(v) => v,
        None => {
            return out;
        },
    };
    let mut i: usize = v.len();
    proof {
        assert(v@.subrange(i as int, v@.len() as int) =~= Seq::<Option<String>>::empty());
    }
    while i > 0
        invariant
            i <= v@.len(),
            string_views(out@) == scene_names(Some(v@.subrange(i as int, v@.len() as int))),
        decreases i,
    {
        let ghost before = string_views(out@);
        proof {
            let t = v@.subrange(i - 1, v@.len() as int);
            assert(t.drop_first() =~= v@.subrange(i as int, v@.len() as int));
            assert(t[0] == v@[i - 1]);
        }
        match &v[i - 1] {
            Some(n) => {
                out.push(n.clone());
                assert(string_views(out@) =~= before.push(n@));
            },
            None => {},
        }
        i = i - 1;
    }
    assert(v@.subrange(0, v@.len() as int) =~= v@);
    out
}

/// The first non-empty special microphone.
pub open spec fn first_mic(mics: Seq<Option<String>>) -> Seq<char>
    decreases mics.len(),
{
    if mics.len() == 0 {
        Seq::empty()
    } else if mics[0] matches Some(m) && m@.len() > 0 {
        mics[0]->0@
    } else {
        first_mic(mics.drop_first())
    }
}

/// The name of the first input that captures audio, or empty.
pub open spec fn first_capture(inputs: Option<Seq<(Option<String>, Option<String>)>>) -> Seq<char>
    decreases match inputs {
        Some(s) => s.len(),
        None => 0,
    },
{
    match inputs {
        None => Seq::empty(),
        Some(s) => if s.len() == 0 {
            Seq::empty()
        } else {
            let kind = match s[0].0 {
                Some(k) => k@,
                None => Seq::empty(),
            };
            if contains(kind, "input_capture"@) {
                match s[0].1 {
                    Some(n) => n@,
                    None => Seq::empty(),
                }
            } else {
                first_capture(Some(s.drop_first()))
            }
        },
    }
}

/// The first audio-capture input a message lists, or empty.
pub open spec fn capture_of(m: ObsMessage) -> Seq<char> {
    first_capture(match m.inputs {
        Some(v) => Some(v@),
        None => None,
    })
}

/// Whether a microphone and a follow-up are what an input list calls for.
pub open spec fn final_mic_ok(mic: Seq<char>, m: &ObsMessage, r: &Option<ObsRequest>) -> bool {
    mic == capture_of(*m) && match *r {
        Some(q) => capture_of(*m).len() > 0 && q@ == mute_query(capture_of(*m)),
        None => capture_of(*m).len() == 0,
    }
}

/// A message's type, or empty.
pub open spec fn kind_of(m: ObsMessage) -> Seq<char> {
    match m.kind {
        Some(k) => k@,
        None => Seq::empty(),
    }
}

/// A text field, or empty.
pub open spec fn text_or_empty(v: Option<String>) -> Seq<char> {
    match v {
        Some(s) => s@,
        None => Seq::empty(),
    }
}

/// The request to ask for the microphone's mute state.
pub open spec fn mute_query(mic: Seq<char>) -> ObsRequestView {
    ObsRequestView { request_type: "GetInputMute"@, input_name: Some(mic), scene_name: None }
}

/// What one message from OBS changes of the state, and the follow-up request it calls for.
///
/// Events: recording, streaming and the replay buffer start or stop (an unreadable flag keeps
/// what was known), the microphone is muted (only the one the host uses), the scene on air or the
/// list of scenes changes. Answers: the same facts read at connection, where an unreadable flag
/// means off; the microphone is the first special one, or failing that (asked for next) the first
/// audio-capture input, and its mute state is asked for next.
pub open spec fn applied(st: ObsState, m: ObsMessage) -> (ObsState, Option<ObsRequestView>) {
    let k = kind_of(m);
    let names = scene_names(match m.scenes {
        Some(v) => Some(v@),
        None => None,
    });
    if m.op == Some(5i64) {
        if k == "RecordStateChanged"@ {
            (ObsState { recording: match m.output_active { Some(b) => b, None => st.recording }, ..st }, None)
        } else if k == "StreamStateChanged"@ {
            (ObsState { streaming: match m.output_active { Some(b) => b, None => st.streaming }, ..st }, None)
        } else if k == "ReplayBufferStateChanged"@ {
            (ObsState { replay_active: match m.output_active { Some(b) => b, None => st.replay_active }, ..st }, None)
        } else if k == "InputMuteStateChanged"@ {
            if m.input_name matches Some(n) && n@ == st.mic_name@ {
                (ObsState { mic_muted: match m.input_muted { Some(b) => b, None => st.mic_muted }, ..st }, None)
            } else {
                (st, None)
            }
        } else {
            (st, None)
        }
    } else if m.op == Some(7i64) {
        if k == "GetRecordStatus"@ {
            (ObsState { recording: m.output_active == Some(true), ..st }, None)
        } else if k == "GetStreamStatus"@ {
            (ObsState { streaming: m.output_active == Some(true), ..st }, None)
        } else if k == "GetReplayBufferStatus"@ {
            (ObsState { replay_active: m.output_active == Some(true), ..st }, None)
        } else if k == "GetInputMute"@ {
            (ObsState { mic_muted: m.input_muted == Some(true), ..st }, None)
        } else {
            (st, None)
        }
    } else {
        (st, None)
    }
}

/// The microphone the special inputs name, and the request that follows: its mute state, or the
/// list of inputs to look for one when there is none.
fn special_mic(m: &ObsMessage) -> (r: (String, ObsRequest))
    ensures
        r.0@ == first_mic(m.mics@),
        if first_mic(m.mics@).len() == 0 {
            r.1@ == plain("GetInputList"@)
        } else {
            r.1@ == mute_query(first_mic(m.mics@))
        },
{
    let mut mic = String::new();
    let mut i: usize = 0;
    assert(m.mics@.subrange(0, m.mics@.len() as int) =~= m.mics@);
    while i < m.mics.len()
        invariant
            i <= m.mics@.len(),
            mic@.len() == 0 ==> first_mic(m.mics@) == first_mic(m.mics@.subrange(i as int, m.mics@.len() as int)),
            mic@.len() > 0 ==> mic@ == first_mic(m.mics@),
        decreases m.mics@.len() - i + (if mic@.len() == 0 { 1int } else { 0int }),
    {
        proof {
            let t = m.mics@.subrange(i as int, m.mics@.len() as int);
            assert(t.drop_first() =~= m.mics@.subrange(i + 1, m.mics@.len() as int));
            assert(t[0] == m.mics@[i as int]);
        }
        if mic.as_str().is_empty() {
            match &m.mics[i] {
                Some(s) => {
                    if !s.as_str().is_empty() {
                        mic = s.clone();
                    }
                },
                None => {},
            }
            i = i + 1;
        } else {
            i = m.mics.len();
        }
    }
    proof {
        if mic@.len() == 0 {
            assert(m.mics@.subrange(m.mics@.len() as int, m.mics@.len() as int) =~= Seq::<Option<String>>::empty());
        }
    }
    let q = if mic.as_str().is_empty() {
        plain_exec("GetInputList")
    } else {
        ObsRequest { request_type: "GetInputMute", input_name: Some(mic.clone()), scene_name: None }
    };
    (mic, q)
}

/// The first audio-capture input, and the request for its mute state when there is one.
fn capture_mic(m: &ObsMessage) -> (r: (String, Option<ObsRequest>))
    ensures
        r.0@ == capture_of(*m),
        match r.1 {
            Some(q) => r.0@.len() > 0 && q@ == mute_query(r.0@),
            None => r.0@.len() == 0,
        },
{
    let mut name = String::new();
    match &m.inputs {
        Some(v) => {
            let mut i: usize = 0;
            let mut done = false;
            assert(v@.subrange(0, v@.len() as int) =~= v@);
            while i < v.len() && !done
                invariant
                    i <= v@.len(),
                    !done ==> name@.len() == 0 && first_capture(Some(v@)) == first_capture(Some(v@.subrange(i as int, v@.len() as int))),
                    done ==> name@ == first_capture(Some(v@)),
                decreases v@.len() - i + (if done { 0int } else { 1int }),
            {
                let ghost t = v@.subrange(i as int, v@.len() as int);
                proof {
                    reveal_strlit("");
                    assert(t.drop_first() =~= v@.subrange(i + 1, v@.len() as int));
                    assert(t[0] == v@[i as int]);
                }
                let kind: &str = match &v[i].0 {
                    Some(kk) => kk.as_str(),
                    None => "",
                };
                let kc = chars_of(kind);
                let ghost kspec = match t[0].0 {
                    Some(kk) => kk@,
                    None => Seq::<char>::empty(),
                };
                assert(kc@ == kspec);
                if contains_lit(kc.as_slice(), "input_capture") {
                    name = match &v[i].1 {
                        Some(n) => n.clone(),
                        None => String::new(),
                    };
                    assert(name@ == first_capture(Some(t)));
                    done = true;
                } else {
                    assert(first_capture(Some(t)) == first_capture(Some(t.drop_first())));
                    i = i + 1;
                }
            }
            proof {
                if !done {
                    assert(v@.subrange(v@.len() as int, v@.len() as int) =~= Seq::<(Option<String>, Option<String>)>::empty());
                }
            }
        },
        None => {},
    }
    assert(name@ == first_capture(match m.inputs {
        Some(v) => Some(v@),
        None => None,
    }));
    let q = if name.as_str().is_empty() {
        None
    } else {
        let nc = name.clone();
        let qq = ObsRequest { request_type: "GetInputMute", input_name: Some(nc), scene_name: None };
        assert(qq@ == mute_query(name@));
        Some(qq)
    };
    (name, q)
}

/// The connection and the on-air flags are the same in both states.
pub open spec fn same_flags(a: ObsState, b: ObsState) -> bool {
    a.connected == b.connected && a.recording == b.recording && a.streaming == b.streaming
        && a.replay_active == b.replay_active && a.mic_muted == b.mic_muted
}

/// Updates the state from one message from OBS and returns the follow-up request it calls for.
pub fn obs_apply(st: &mut ObsState, m: &ObsMessage) -> (r: Option<ObsRequest>)
    ensures
        m.op == Some(5i64) && kind_of(*m) == "CurrentProgramSceneChanged"@ ==> final(st).current_scene@
            == text_or_empty(m.scene_name) && r is None && same_flags(*final(st), *old(st))
            && final(st).mic_name@ == old(st).mic_name@ && string_views(final(st).scenes@)
            == string_views(old(st).scenes@),
        m.op == Some(5i64) && kind_of(*m) == "SceneListChanged"@ ==> string_views(final(st).scenes@)
            == scene_names(match m.scenes {
                Some(v) => Some(v@),
                None => None,
            }) && r is None && same_flags(*final(st), *old(st)) && final(st).mic_name@
            == old(st).mic_name@ && final(st).current_scene@ == old(st).current_scene@,
        m.op == Some(7i64) && kind_of(*m) == "GetSceneList"@ ==> string_views(final(st).scenes@)
            == scene_names(match m.scenes {
                Some(v) => Some(v@),
                None => None,
            }) && final(st).current_scene@ == text_or_empty(m.current_program_scene_name) && r is None
            && same_flags(*final(st), *old(st)) && final(st).mic_name@ == old(st).mic_name@,
        m.op == Some(7i64) && kind_of(*m) == "GetSpecialInputs"@ ==> final(st).mic_name@ == first_mic(m.mics@)
            && same_flags(*final(st), *old(st)) && string_views(final(st).scenes@) == string_views(
            old(st).scenes@,
        ) && final(st).current_scene@ == old(st).current_scene@ && match r {
                Some(q) => if first_mic(m.mics@).len() == 0 {
                    q@ == plain("GetInputList"@)
                } else {
                    q@ == mute_query(first_mic(m.mics@))
                },
                None => false,
            },
        m.op == Some(7i64) && kind_of(*m) == "GetInputList"@ ==> final_mic_ok(final(st).mic_name@, m, &r)
            && same_flags(*final(st), *old(st)) && string_views(final(st).scenes@) == string_views(
            old(st).scenes@,
        ) && final(st).current_scene@ == old(st).current_scene@,
        !((m.op == Some(5i64) && (kind_of(*m) == "CurrentProgramSceneChanged"@ || kind_of(*m)
            == "SceneListChanged"@)) || (m.op == Some(7i64) && (kind_of(*m) == "GetSceneList"@
            || kind_of(*m) == "GetSpecialInputs"@ || kind_of(*m) == "GetInputList"@))) ==> *final(st)
            == applied(*old(st), *m).0 && r is None,
{
    let k: &str = match &m.kind {
        Some(k) => k.as_str(),
        None => "",
    };
    proof {
        reveal_strlit("");
        reveal_strlit("RecordStateChanged");
        reveal_strlit("StreamStateChanged");
        reveal_strlit("ReplayBufferStateChanged");
        reveal_strlit("InputMuteStateChanged");
        reveal_strlit("CurrentProgramSceneChanged");
        reveal_strlit("SceneListChanged");
        reveal_strlit("GetSceneList");
        reveal_strlit("GetSpecialInputs");
        reveal_strlit("GetInputList");
        reveal_strlit("GetRecordStatus");
        reveal_strlit("GetStreamStatus");
        reveal_strlit("GetReplayBufferStatus");
        reveal_strlit("GetInputMute");
        assert("RecordStateChanged"@[0] != "StreamStateChanged"@[0]);
        assert("InputMuteStateChanged"@[0] != "GetReplayBufferStatus"@[0]);
        assert("SceneListChanged"@[0] != "GetSpecialInputs"@[0]);
        assert("GetSceneList"@[3] != "GetInputList"@[3]);
        assert("GetSceneList"@[3] != "GetInputMute"@[3]);
        assert("GetInputList"@[8] != "GetInputMute"@[8]);
        assert("GetRecordStatus"@[3] != "GetStreamStatus"@[3]);
    }
    assert(k@ == kind_of(*m));
    if m.op == Some(5i64) {
        if same(k, "RecordStateChanged") {
            st.recording = match m.output_active { Some(b) => b, None => st.recording };
        } else if same(k, "StreamStateChanged") {
            st.streaming = match m.output_active { Some(b) => b, None => st.streaming };
        } else if same(k, "ReplayBufferStateChanged") {
            st.replay_active = match m.output_active { Some(b) => b, None => st.replay_active };
        } else if same(k, "InputMuteStateChanged") {
            let hit = match &m.input_name {
                Some(n) => same(n.as_str(), st.mic_name.as_str()),
                None => false,
            };
            if hit {
                st.mic_muted = match m.input_muted { Some(b) => b, None => st.mic_muted };
            }
        } else if same(k, "CurrentProgramSceneChanged") {
            st.current_scene = match &m.scene_name {
                Some(s) => s.clone(),
                None => String::new(),
            };
        } else if same(k, "SceneListChanged") {
            st.scenes = obs_scene_names(&m.scenes);
        }
        None
    } else if m.op == Some(7i64) {
        if same(k, "GetSceneList") {
            st.scenes = obs_scene_names(&m.scenes);
            st.current_scene = match &m.current_program_scene_name {
                Some(s) => s.clone(),
                None => String::new(),
            };
            None
        } else if same(k, "GetSpecialInputs") {
            let (mic, q) = special_mic(m);
            st.mic_name = mic;
            Some(q)
        } else if same(k, "GetInputList") {
            let (name, q) = capture_mic(m);
            st.mic_name = name;
            q
        } else {
            if same(k, "GetRecordStatus") {
                st.recording = m.output_active == Some(true);
            } else if same(k, "GetStreamStatus") {
                st.streaming = m.output_active == Some(true);
            } else if same(k, "GetReplayBufferStatus") {
                st.replay_active = m.output_active == Some(true);
            } else if same(k, "GetInputMute") {
                st.mic_muted = m.input_muted == Some(true);
            }
            None
        }
    } else {
        None
    }
}

/// OBS's output events move only their own flag: a `RecordStateChanged` event with an
/// `outputActive` sets whether OBS records, a `StreamStateChanged` one whether it is live, a
/// `ReplayBufferStateChanged` one whether the replay buffer runs, each leaving the other flags,
/// the microphone, the scenes and the connection as they were, and none calls for a request.
pub proof fn law_an_output_event_moves_only_its_own_flag(st: ObsState, m: ObsMessage, b: bool)
    requires
        m.op == Some(5i64),
        m.output_active == Some(b),
    ensures
        kind_of(m) == "RecordStateChanged"@ ==> ({
            let (n, q) = applied(st, m);
            n.recording == b && n.streaming == st.streaming && n.replay_active == st.replay_active
                && n.mic_muted == st.mic_muted && n.connected == st.connected && n.mic_name
                == st.mic_name && n.scenes == st.scenes && n.current_scene == st.current_scene && q is None
        }),
        kind_of(m) == "StreamStateChanged"@ ==> ({
            let (n, q) = applied(st, m);
            n.streaming == b && n.recording == st.recording && n.replay_active == st.replay_active
                && n.mic_muted == st.mic_muted && n.connected == st.connected && n.mic_name
                == st.mic_name && n.scenes == st.scenes && n.current_scene == st.current_scene && q is None
        }),
        kind_of(m) == "ReplayBufferStateChanged"@ ==> ({
            let (n, q) = applied(st, m);
            n.replay_active == b && n.recording == st.recording && n.streaming == st.streaming
                && n.mic_muted == st.mic_muted && n.connected == st.connected && n.mic_name
                == st.mic_name && n.scenes == st.scenes && n.current_scene == st.current_scene && q is None
        }),
{
    reveal_strlit("RecordStateChanged");
    reveal_strlit("StreamStateChanged");
    reveal_strlit("ReplayBufferStateChanged");
    assert("RecordStateChanged"@[0] != "StreamStateChanged"@[0]);
    assert("RecordStateChanged"@ != "ReplayBufferStateChanged"@) by {
        assert("RecordStateChanged"@.len() != "ReplayBufferStateChanged"@.len());
    }
    assert("StreamStateChanged"@[0] != "ReplayBufferStateChanged"@[0]);
}

} // verus!
