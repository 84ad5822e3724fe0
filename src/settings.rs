use vstd::prelude::*;

verus! {

/// The transcription model to load.
#[derive(Debug, Clone, Copy, PartialEq, Eq, Structural)]
pub enum TranscriptionModel {
    BaseEn,
    TinyEn,
}

/// The file name of each model under the model root.
pub open spec fn model_file(m: TranscriptionModel) -> Seq<char> {
    match m {
        TranscriptionModel::BaseEn => "ggml-base.en.bin"@,
        TranscriptionModel::TinyEn => "ggml-tiny.en.bin"@,
    }
}

impl TranscriptionModel {
    pub fn file_name(self) -> (r: &'static str)
        ensures
            r@ == model_file(self),
    {
        match self {
            TranscriptionModel::BaseEn => "ggml-base.en.bin",
            TranscriptionModel::TinyEn => "ggml-tiny.en.bin",
        }
    }
}

/// Which operating-system permissions the engine holds.
#[derive(Debug, Clone, Copy, PartialEq, Eq, Structural)]
pub struct PermissionStatus {
    pub microphone: bool,
    pub accessibility: bool,
}

impl PermissionStatus {
    pub fn all_granted(self) -> (r: bool)
        ensures
            r == (self.microphone && self.accessibility),
    {
        self.microphone && self.accessibility
    }
}

/// The engine's configuration. `sensitivity` is in thousandths (450 stands for
/// 0.45); the engine holds it within [10, 1000].
#[derive(Debug, Clone)]
pub struct EngineSettings {
    pub enabled: bool,
    pub launch_at_startup: bool,
    pub microphone: String,
    pub sensitivity: u32,
    pub model: TranscriptionModel,
    pub push_to_talk_hotkey: String,
}

impl Default for EngineSettings {
    fn default() -> (r: Self)
        ensures
            r.enabled,
            !r.launch_at_startup,
            r.microphone@ == Seq::<char>::empty(),
            r.sensitivity == 450,
            r.model == TranscriptionModel::BaseEn,
            r.push_to_talk_hotkey@ == "Cmd+Shift+Space"@,
    {
        EngineSettings {
            enabled: true,
            launch_at_startup: false,
            microphone: String::new(),
            sensitivity: 450,
            model: TranscriptionModel::BaseEn,
            push_to_talk_hotkey: "Cmd+Shift+Space".to_owned(),
        }
    }
}

/// `s` with every occurrence of `pat` replaced by `rep`, matches taken left to
/// right without overlap.
pub open spec fn replace_all(s: Seq<char>, pat: Seq<char>, rep: Seq<char>) -> Seq<char>
    recommends
        pat.len() > 0,
    decreases s.len(),
{
    if s.len() == 0 || pat.len() == 0 {
        s
    } else if pat.is_prefix_of(s) {
        rep + replace_all(s.skip(pat.len() as int), pat, rep)
    } else {
        seq![s[0]] + replace_all(s.skip(1), pat, rep)
    }
}

fn matches_at(s: &Vec<char>, i: usize, pat: &Vec<char>) -> (r: bool)
    requires
        i <= s@.len(),
    ensures
        r == pat@.is_prefix_of(s@.skip(i as int)),
{
    if pat.len() > s.len() - i {
        return false;
    }
    let n = s.len();
    let mut k: usize = 0;
    while k < pat.len()
        invariant
            n == s@.len(),
            i <= n,
            pat@.len() <= s@.len() - i,
            k <= pat@.len(),
            forall|j: int| 0 <= j < k ==> pat@[j] == s@[i + j],
        decreases pat@.len() - k,
    {
        if pat[k] != s[i + k] {
            assert(pat@[k as int] != s@.skip(i as int)[k as int]);
            return false;
        }
        k += 1;
    }
    assert(pat@ =~= s@.skip(i as int).take(pat@.len() as int));
    true
}

/// Replaces every occurrence of `pat` in `s` by `rep`, left to right.
pub fn replace_text(s: &str, pat: &str, rep: &str) -> (r: String)
    requires
        pat@.len() > 0,
    ensures
        r@ == replace_all(s@, pat@, rep@),
{
    let sc = crate::text::chars_of(s);
    let pc = crate::text::chars_of(pat);
    let rc = crate::text::chars_of(rep);
    let mut out: Vec<char> = Vec::new();
    let mut i: usize = 0;
    assert(sc@.skip(0) =~= sc@);
    assert(out@ + replace_all(sc@.skip(0), pc@, rc@) =~= replace_all(s@, pat@, rep@));
    while i < sc.len()
        invariant
            sc@ == s@,
            pc@ == pat@,
            rc@ == rep@,
            pc@.len() > 0,
            i <= sc@.len(),
            out@ + replace_all(sc@.skip(i as int), pc@, rc@) == replace_all(s@, pat@, rep@),
        decreases sc@.len() - i,
    {
        let ghost rest = sc@.skip(i as int);
        if matches_at(&sc, i, &pc) {
            let mut k: usize = 0;
            let ghost before = out@;
            while k < rc.len()
                invariant
                    k <= rc@.len(),
                    out@ == before + rc@.take(k as int),
                decreases rc@.len() - k,
            {
                out.push(rc[k]);
                k += 1;
                assert(out@ =~= before + rc@.take(k as int));
            }
            assert(rc@.take(rc@.len() as int) =~= rc@);
            assert(rest.skip(pc@.len() as int) =~= sc@.skip(i + pc@.len()));
            assert(out@ + replace_all(sc@.skip(i + pc@.len()), pc@, rc@) =~= before + replace_all(rest, pc@, rc@));
            i = i + pc.len();
        } else {
            let ghost before = out@;
            out.push(sc[i]);
            assert(rest.skip(1) =~= sc@.skip(i + 1));
            assert(out@ + replace_all(sc@.skip(i + 1), pc@, rc@) =~= before + replace_all(rest, pc@, rc@));
            i = i + 1;
        }
    }
    assert(sc@.skip(i as int).len() == 0);
    assert(out@ + replace_all(sc@.skip(i as int), pc@, rc@) =~= out@);
    crate::text::string_of(out.as_slice())
}

/// The hotkey spelling the shortcut registry takes: `Cmd` becomes `Command`,
/// `Option` becomes `Alt` and `Esc` becomes `Escape`, in that order.
pub fn normalize_shortcut(raw: &str) -> (r: String)
    ensures
        r@ == replace_all(
            replace_all(replace_all(raw@, "Cmd"@, "Command"@), "Option"@, "Alt"@),
            "Esc"@,
            "Escape"@,
        ),
{
    proof {
        reveal_strlit("Cmd");
        reveal_strlit("Option");
        reveal_strlit("Esc");
    }
    let a = replace_text(raw, "Cmd", "Command");
    let b = replace_text(a.as_str(), "Option", "Alt");
    replace_text(b.as_str(), "Esc", "Escape")
}

} // verus!
