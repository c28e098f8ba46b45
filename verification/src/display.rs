//! The display projection: a pure mapping from the controller's current
//! state to a list of positioned draw commands for the external renderer.
//! No decision logic lives here, only layout.

use vstd::prelude::*;
use crate::player::Player;
use crate::text::{dec_seq, digit, digit_char, push_char, u64_to_dec};
use vstd::string::{StrSliceExecFns, StringExecFns};

verus! {

/// A rectangular screen region, measured in terminal cells.
#[derive(Clone, Copy, PartialEq, Eq, Structural, Debug)]
pub struct Region {
    pub x: u16,
    pub y: u16,
    pub width: u16,
    pub height: u16,
}

/// How one region is drawn.
#[derive(Clone, Copy, PartialEq, Eq, Structural, Debug)]
pub enum DrawKind {
    /// A bordered box with no text of its own.
    Border,
    /// Left-aligned text.
    Text,
    /// Centered text.
    CenteredText,
}

/// One positioned draw command for the external renderer.
pub struct DrawCmd {
    pub region: Region,
    pub kind: DrawKind,
    pub text: String,
}

/// A track counter rendered as at least three digits, zero-padded.
pub open spec fn spec_pad3(n: nat) -> Seq<char> {
    if n < 10 {
        seq!['0', '0', digit_char(n)]
    } else if n < 100 {
        seq!['0'] + dec_seq(n)
    } else {
        dec_seq(n)
    }
}

/// The bitrate-and-counter line: a fixed placeholder bitrate, then the
/// selected track over the track count, both zero-padded.
pub open spec fn spec_track_counter(songid: nat, songnum: nat) -> Seq<char> {
    "----kbps "@ + spec_pad3(songid) + seq!['/'] + spec_pad3(songnum)
}

/// Appends `v` as at least three zero-padded digits.
pub fn push_pad3(s: &mut String, v: u16)
    ensures
        final(s)@ == old(s)@ + spec_pad3(v as nat),
{
    if v < 10 {
        push_char(s, '0');
        push_char(s, '0');
        push_char(s, digit(v as u64));
        proof {
            assert(s@ =~= old(s)@ + spec_pad3(v as nat));
        }
    } else if v < 100 {
        push_char(s, '0');
        let t = u64_to_dec(v as u64);
        s.append(t.as_str());
        proof {
            assert(s@ =~= old(s)@ + spec_pad3(v as nat));
        }
    } else {
        let t = u64_to_dec(v as u64);
        s.append(t.as_str());
        proof {
            assert(s@ =~= old(s)@ + spec_pad3(v as nat));
        }
    }
}

/// Renders the counter line shown beside the legend.
pub fn track_counter_text(songid: u16, songnum: u16) -> (r: String)
    ensures
        r@ == spec_track_counter(songid as nat, songnum as nat),
{
    let mut s = "----kbps ".to_owned();
    push_pad3(&mut s, songid);
    push_char(&mut s, '/');
    push_pad3(&mut s, songnum);
    proof {
        assert(s@ =~= spec_track_counter(songid as nat, songnum as nat));
    }
    s
}

/// The display projection: the fixed frame and legend, the track name
/// (centered), the two time stamps, the progress bar, the counter line and
/// the play-mode placeholder, each at its fixed place.
pub fn render_frame(p: &Player) -> (r: Vec<DrawCmd>)
    requires
        p.wf(),
    ensures
        r@.len() == 8,
        r@[0].kind == DrawKind::Border,
        r@[0].region == (Region { x: 0, y: 0, width: 45, height: 6 }),
        r@[0].text@.len() == 0,
        r@[1].kind == DrawKind::Text,
        r@[1].region == (Region { x: 2, y: 4, width: 41, height: 1 }),
        r@[1].text@ == "(P)Play/Pause (Q)Quit"@,
        r@[2].kind == DrawKind::CenteredText,
        r@[2].region == (Region { x: 2, y: 1, width: 41, height: 1 }),
        r@[2].text@ == p.song_name@,
        r@[3].kind == DrawKind::Text,
        r@[3].region == (Region {
            x: 2,
            y: 3,
            width: p.song_curr_time@.len() as u16,
            height: 1,
        }),
        r@[3].text@ == p.song_curr_time@,
        r@[4].kind == DrawKind::Text,
        r@[4].region == (Region {
            x: (43 - p.song_duration@.len()) as u16,
            y: 3,
            width: p.song_duration@.len() as u16,
            height: 1,
        }),
        r@[4].text@ == p.song_duration@,
        r@[5].kind == DrawKind::Text,
        r@[5].region == (Region { x: 10, y: 3, width: 25, height: 1 }),
        r@[5].text@ == p.song_progress@,
        r@[6].kind == DrawKind::Text,
        r@[6].region == (Region { x: 27, y: 4, width: 16, height: 1 }),
        r@[6].text@ == spec_track_counter(p.curr_songid as nat, p.curr_songnum as nat),
        r@[7].kind == DrawKind::Text,
        r@[7].region == (Region { x: 2, y: 2, width: 41, height: 1 }),
        r@[7].text@ == "- L - - ---"@,
{
    let ct_len = p.song_curr_time.as_str().unicode_len();
    let du_len = p.song_duration.as_str().unicode_len();
    let mut r: Vec<DrawCmd> = Vec::new();
    r.push(DrawCmd {
        region: Region { x: 0, y: 0, width: 45, height: 6 },
        kind: DrawKind::Border,
        text: String::new(),
    });
    r.push(DrawCmd {
        region: Region { x: 2, y: 4, width: 41, height: 1 },
        kind: DrawKind::Text,
        text: "(P)Play/Pause (Q)Quit".to_owned(),
    });
    r.push(DrawCmd {
        region: Region { x: 2, y: 1, width: 41, height: 1 },
        kind: DrawKind::CenteredText,
        text: p.song_name.clone(),
    });
    r.push(DrawCmd {
        region: Region { x: 2, y: 3, width: ct_len as u16, height: 1 },
        kind: DrawKind::Text,
        text: p.song_curr_time.clone(),
    });
    r.push(DrawCmd {
        region: Region { x: 43 - du_len as u16, y: 3, width: du_len as u16, height: 1 },
        kind: DrawKind::Text,
        text: p.song_duration.clone(),
    });
    r.push(DrawCmd {
        region: Region { x: 10, y: 3, width: 25, height: 1 },
        kind: DrawKind::Text,
        text: p.song_progress.clone(),
    });
    r.push(DrawCmd {
        region: Region { x: 27, y: 4, width: 16, height: 1 },
        kind: DrawKind::Text,
        text: track_counter_text(p.curr_songid, p.curr_songnum),
    });
    r.push(DrawCmd {
        region: Region { x: 2, y: 2, width: 41, height: 1 },
        kind: DrawKind::Text,
        text: "- L - - ---".to_owned(),
    });
    r
}

} // verus!
