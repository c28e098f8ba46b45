use tui_player::display::{render_frame, track_counter_text, DrawKind, Region};
use tui_player::player::{PlayState, Player};
use tui_player::scan::DirEntryInfo;

fn entry(name: &str) -> DirEntryInfo {
    DirEntryInfo { name: name.to_string(), is_file: true }
}

#[test]
fn counter_is_zero_padded_to_three_digits() {
    assert_eq!(track_counter_text(1, 3), "----kbps 001/003");
    assert_eq!(track_counter_text(0, 0), "----kbps 000/000");
    assert_eq!(track_counter_text(12, 345), "----kbps 012/345");
    assert_eq!(track_counter_text(1234, 65535), "----kbps 1234/65535");
}

#[test]
fn frame_has_the_eight_fixed_regions() {
    let mut p = Player::new();
    p.handle_load(Ok(vec![entry("a.mp3"), entry("b.flac"), entry("c.ogg")]));
    p.play_state = PlayState::Playing(false);
    p.show_song_curr_time(61);
    let dur = p.show_song_duration(Some(100));
    p.show_song_progress(61, dur, false);
    p.handle_track_finished();

    let cmds = render_frame(&p);
    assert_eq!(cmds.len(), 8);

    assert_eq!(cmds[0].kind, DrawKind::Border);
    assert_eq!(cmds[0].region, Region { x: 0, y: 0, width: 45, height: 6 });
    assert_eq!(cmds[0].text, "");

    assert_eq!(cmds[1].kind, DrawKind::Text);
    assert_eq!(cmds[1].region, Region { x: 2, y: 4, width: 41, height: 1 });
    assert_eq!(cmds[1].text, "(P)Play/Pause (Q)Quit");

    assert_eq!(cmds[2].kind, DrawKind::CenteredText);
    assert_eq!(cmds[2].region, Region { x: 2, y: 1, width: 41, height: 1 });
    assert_eq!(cmds[2].text, p.song_name);

    assert_eq!(cmds[3].kind, DrawKind::Text);
    assert_eq!(cmds[3].text, "0:01:01");
    assert_eq!(cmds[3].region, Region { x: 2, y: 3, width: 7, height: 1 });

    assert_eq!(cmds[4].kind, DrawKind::Text);
    assert_eq!(cmds[4].text, "0:01:40");
    assert_eq!(cmds[4].region, Region { x: 36, y: 3, width: 7, height: 1 });

    assert_eq!(cmds[5].kind, DrawKind::Text);
    assert_eq!(cmds[5].text, p.song_progress);
    assert_eq!(cmds[5].region, Region { x: 10, y: 3, width: 25, height: 1 });

    assert_eq!(cmds[6].kind, DrawKind::Text);
    assert_eq!(cmds[6].text, "----kbps 002/003");
    assert_eq!(cmds[6].region, Region { x: 27, y: 4, width: 16, height: 1 });

    assert_eq!(cmds[7].kind, DrawKind::Text);
    assert_eq!(cmds[7].text, "- L - - ---");
    assert_eq!(cmds[7].region, Region { x: 2, y: 2, width: 41, height: 1 });
}

#[test]
fn frame_with_empty_duration_sits_at_right_edge() {
    let p = Player::new();
    let cmds = render_frame(&p);
    assert_eq!(cmds[4].region, Region { x: 43, y: 3, width: 0, height: 1 });
    assert_eq!(cmds[3].region, Region { x: 2, y: 3, width: 0, height: 1 });
    assert_eq!(cmds[6].text, "----kbps 000/000");
}
