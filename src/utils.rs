use crate::blocked_sites::texts;
use crate::config::Phase;
use vstd::prelude::*;
use vstd::string::StringExecFns;

verus! {

/// `pat` occurs in `s` as a run of consecutive characters.
pub open spec fn occurs_in(pat: Seq<char>, s: Seq<char>) -> bool {
    exists|i: int| 0 <= i && i + pat.len() <= s.len() && #[trigger] s.subrange(i, i + pat.len()) == pat
}

/// Relies on `str::contains` with a string pattern: true exactly when the
/// pattern matches a sub-slice of the text.
#[verifier::external_body]
fn text_contains(text: &str, pattern: &str) -> (r: bool)
    ensures
        r == occurs_in(pattern@, text@),
{
    text.contains(pattern)
}

/// The hosts-file line that sends `site` nowhere.
pub open spec fn redirect_line(site: Seq<char>) -> Seq<char> {
    "0.0.0.0 "@ + site
}

/// The hosts file a blocker edits when none is named.
pub const DEFAULT_HOSTS_FILE: &'static str = "/etc/hosts";

/// Blocks and unblocks sites by adding lines to a hosts file and removing
/// them again.
pub struct SiteBlocker {
    pub hosts_file: String,
}

/// The sound that marks the start of a work phase.
pub const WORK_SOUND: &'static str = "kuru-ring-herta-made-with-Voicemod.mp3";

/// The sound that marks the start of a break; also the test sound.
pub const BREAK_SOUND: &'static str = "kuru-kuru-herta-made-with-Voicemod.mp3";

/// The sound that marks the end of the session.
pub const IDLE_SOUND: &'static str = "aqua-crying-green-screen-with-crying-sounds-made-with-Voicemod.mp3";

/// How the start of a phase is announced: a notification, a sound, and
/// whether the blocked sites are blocked during it.
pub struct PhaseCue {
    pub title: String,
    pub message: String,
    pub sound: String,
    pub block_sites: bool,
}

/// The announcement of the start of phase `p`. Sites are blocked during work
/// only.
pub fn phase_cue(p: Phase) -> (r: PhaseCue)
    ensures
        r.block_sites == (p == Phase::Work),
        match p {
            Phase::Work => r.title@ == "🔨 Trabajando..."@ && r.message@ == "Pomodoro en curso"@
                && r.sound@ == WORK_SOUND@,
            Phase::ShortBreak => r.title@ == "☕ Pausa corta..."@ && r.message@
                == "Tómate un descanso corto"@ && r.sound@ == BREAK_SOUND@,
            Phase::LongBreak => r.title@ == "🛌 Pausa larga..."@ && r.message@
                == "Tómate un descanso largo"@ && r.sound@ == BREAK_SOUND@,
            Phase::Idle => r.title@ == "🕒 Pomodoro finalizado"@ && r.message@
                == "Pomodoro finalizado o en espera"@ && r.sound@ == IDLE_SOUND@,
        },
{
    match p {
        Phase::Work => PhaseCue {
            title: String::from_str("🔨 Trabajando..."),
            message: String::from_str("Pomodoro en curso"),
            sound: String::from_str(WORK_SOUND),
            block_sites: true,
        },
        Phase::ShortBreak => PhaseCue {
            title: String::from_str("☕ Pausa corta..."),
            message: String::from_str("Tómate un descanso corto"),
            sound: String::from_str(BREAK_SOUND),
            block_sites: false,
        },
        Phase::LongBreak => PhaseCue {
            title: String::from_str("🛌 Pausa larga..."),
            message: String::from_str("Tómate un descanso largo"),
            sound: String::from_str(BREAK_SOUND),
            block_sites: false,
        },
        Phase::Idle => PhaseCue {
            title: String::from_str("🕒 Pomodoro finalizado"),
            message: String::from_str("Pomodoro finalizado o en espera"),
            sound: String::from_str(IDLE_SOUND),
            block_sites: false,
        },
    }
}

impl SiteBlocker {
    /// A blocker for `hosts_file`, or for the system hosts file.
    pub fn new(hosts_file: Option<&str>) -> (r: Self)
        ensures
            r.hosts_file@ == (match hosts_file {
                Some(h) => h@,
                None => DEFAULT_HOSTS_FILE@,
            }),
    {
        match hosts_file {
            Some(h) => SiteBlocker { hosts_file: String::from_str(h) },
            None => SiteBlocker { hosts_file: String::from_str(DEFAULT_HOSTS_FILE) },
        }
    }

    /// The hosts-file line that blocks `site`.
    pub fn redirect_entry(site: &str) -> (r: String)
        ensures
            r@ == redirect_line(site@),
    {
        String::from_str("0.0.0.0 ").concat(site)
    }

    /// The lines that blocking `sites` adds to a hosts file that reads
    /// `content`: one for each site whose line is not already there.
    pub fn lines_to_add(content: &str, sites: &Vec<String>) -> (r: Vec<String>)
        ensures
            texts(r@) == texts(sites@).map_values(|s: Seq<char>| redirect_line(s)).filter(
                |l: Seq<char>| !occurs_in(l, content@),
            ),
    {
        let ghost lines = texts(sites@).map_values(|s: Seq<char>| redirect_line(s));
        let ghost absent = |l: Seq<char>| !occurs_in(l, content@);
        let mut out: Vec<String> = Vec::new();
        let mut i: usize = 0;
        while i < sites.len()
            invariant
                i <= sites.len(),
                lines == texts(sites@).map_values(|s: Seq<char>| redirect_line(s)),
                absent == (|l: Seq<char>| !occurs_in(l, content@)),
                texts(out@) == lines.subrange(0, i as int).filter(absent),
            decreases sites.len() - i,
        {
            let line = SiteBlocker::redirect_entry(sites[i].as_str());
            proof {
                assert(lines.subrange(0, i + 1) =~= lines.subrange(0, i as int).push(lines[i as int]));
                lines.subrange(0, i as int).lemma_filter_push(lines[i as int], absent);
            }
            if !text_contains(content, line.as_str()) {
                let ghost before = out@;
                out.push(line);
                proof {
                    assert(texts(out@) =~= texts(before).push(line@));
                }
            }
            i = i + 1;
        }
        proof {
            assert(lines.subrange(0, sites@.len() as int) =~= lines);
        }
        out
    }

    /// The lines that unblocking `sites` removes: one for each site.
    pub fn lines_to_remove(sites: &Vec<String>) -> (r: Vec<String>)
        ensures
            texts(r@) == texts(sites@).map_values(|s: Seq<char>| redirect_line(s)),
    {
        let mut out: Vec<String> = Vec::new();
        let mut i: usize = 0;
        while i < sites.len()
            invariant
                i <= sites.len(),
                texts(out@) == texts(sites@).subrange(0, i as int).map_values(
                    |s: Seq<char>| redirect_line(s),
                ),
            decreases sites.len() - i,
        {
            let line = SiteBlocker::redirect_entry(sites[i].as_str());
            let ghost before = out@;
            out.push(line);
            proof {
                assert(texts(out@) =~= texts(before).push(line@));
                assert(texts(sites@).subrange(0, i + 1).map_values(|s: Seq<char>| redirect_line(s))
                    =~= texts(sites@).subrange(0, i as int).map_values(
                    |s: Seq<char>| redirect_line(s),
                ).push(redirect_line(sites@[i as int]@)));
            }
            i = i + 1;
        }
        proof {
            assert(texts(sites@).subrange(0, sites@.len() as int) =~= texts(sites@));
        }
        out
    }
}

/// What `str::trim` leaves of a text: the text without its leading and
/// trailing white space.
pub uninterp spec fn trimmed(s: Seq<char>) -> Seq<char>;

/// `c` is one of the ASCII digits `0` to `9`.
pub open spec fn is_digit(c: char) -> bool {
    48 <= (c as u32) <= 57
}

/// The number a run of decimal digits writes.
pub open spec fn digits_value(s: Seq<char>) -> int
    decreases s.len(),
{
    if s.len() == 0 {
        0
    } else {
        digits_value(s.drop_last()) * 10 + ((s.last() as u32) - 48)
    }
}

/// What `str::parse::<u32>` makes of a text: an optional `+`, then one or
/// more decimal digits, read as a number that fits in a `u32`; anything
/// else is no number.
pub open spec fn decimal_u32(s: Seq<char>) -> Option<u32> {
    let digits = if s.len() > 0 && s[0] == '+' {
        s.subrange(1, s.len() as int)
    } else {
        s
    };
    if digits.len() > 0 && (forall|i: int| 0 <= i < digits.len() ==> is_digit(#[trigger] digits[i]))
        && digits_value(digits) <= u32::MAX {
        Some(digits_value(digits) as u32)
    } else {
        None
    }
}

/// Relies on `str::trim`: the result depends on the text alone.
#[verifier::external_body]
fn trim_text(s: &str) -> (r: String)
    ensures
        r@ == trimmed(s@),
{
    s.trim().to_string()
}

/// Relies on `str::parse::<u32>` (that is, `u32::from_str` in radix 10):
/// the number, or nothing when the text is not one.
#[verifier::external_body]
fn parse_u32(s: &str) -> (r: Option<u32>)
    ensures
        r == decimal_u32(s@),
{
    s.parse::<u32>().ok()
}

/// The new value of a setting whose current value is `current`, given the
/// line a user typed for it: the number on the line, or the current value
/// when the line is blank or holds no number.
pub fn updated_setting(line: &str, current: u32) -> (r: u32)
    ensures
        r == (match decimal_u32(trimmed(line@)) {
            Some(v) => v,
            None => current,
        }),
{
    let t = trim_text(line);
    match parse_u32(t.as_str()) {
        Some(v) => v,
        None => current,
    }
}

} // verus!
