use filler_view::board::{Board, CellState};
use filler_view::demux::{
    classify_line, Demuxer, DemuxState, EndReason, LineClass, StreamEvent,
};
use filler_view::frames::FrameBuffer;
use filler_view::hud::make_hud;
use filler_view::playback::PlaybackEngine;
use filler_view::player::Player;
use filler_view::scan::DecodeError;

#[test]
fn headers_are_classified_by_leading_token() {
    assert_eq!(classify_line("Plateau 14 21:"), LineClass::BoardHeader);
    assert_eq!(classify_line("Piece 2 2:"), LineClass::PieceHeader);
    assert_eq!(classify_line("== agent"), LineClass::ScoreBanner);
    assert_eq!(classify_line("PlateauX"), LineClass::BoardHeader);
    assert_eq!(classify_line("plateau"), LineClass::Other);
    assert_eq!(classify_line(""), LineClass::Other);
}

fn feed(d: &mut Demuxer, fb: &mut FrameBuffer, line: &str) -> Option<StreamEvent> {
    let ev = d.push_line(line).unwrap();
    if let Some(StreamEvent::BoardDecoded(b)) = ev {
        // a decoded board is published before the next line is read
        fb.append(b);
        return None;
    }
    ev
}

#[test]
fn three_boards_and_a_banner_reach_a_terminal_state() {
    let mut d = Demuxer::new();
    let mut fb = FrameBuffer::new();
    for _ in 0..3 {
        assert!(feed(&mut d, &mut fb, "Plateau 2 2:").is_none());
        assert!(feed(&mut d, &mut fb, "    01").is_none());
        assert!(feed(&mut d, &mut fb, "000 .x").is_none());
        assert!(feed(&mut d, &mut fb, "001 oO").is_none());
    }
    assert_eq!(fb.len(), 3);
    assert!(feed(&mut d, &mut fb, "== 12").is_none());
    let ev = feed(&mut d, &mut fb, "30");
    assert!(matches!(ev, Some(StreamEvent::StreamEnded)));
    assert_eq!(d.scores, Some((12, 30)));
    assert!(matches!(
        d.state,
        DemuxState::Ended { reason: EndReason::ScoreBanner }
    ));
    assert_eq!(fb.len(), 3);
    let b = fb.get(2);
    assert_eq!(b.height(), 2);
    assert_eq!(b.width(), 2);
    assert_eq!(b.maps()[0], vec![CellState::Empty, CellState::ActiveFirst]);
}

#[test]
fn pieces_are_decoded_but_not_buffered() {
    let mut d = Demuxer::new();
    let mut fb = FrameBuffer::new();
    assert!(feed(&mut d, &mut fb, "Piece 2 2:").is_none());
    assert!(feed(&mut d, &mut fb, "O.").is_none());
    let ev = feed(&mut d, &mut fb, ".O");
    match ev {
        Some(StreamEvent::PieceDecoded(p)) => {
            assert_eq!(p.height, 2);
            assert_eq!(p.width, 2);
        }
        other => panic!("expected a decoded piece, got {:?}", other),
    }
    // the trailing separator is consumed without any further event
    assert!(feed(&mut d, &mut fb, "").is_none());
    assert!(matches!(d.state, DemuxState::Header));
    assert_eq!(fb.len(), 0);
}

#[test]
fn zero_height_board_is_complete_after_its_ruler() {
    let mut d = Demuxer::new();
    let mut fb = FrameBuffer::new();
    assert!(feed(&mut d, &mut fb, "Plateau 0 5:").is_none());
    assert!(feed(&mut d, &mut fb, "    01234").is_none());
    assert_eq!(fb.len(), 1);
    assert_eq!(fb.get(0).height(), 0);
    assert_eq!(fb.get(0).width(), 5);
    assert!(matches!(d.state, DemuxState::Header));
}

#[test]
fn boards_and_pieces_interleave_without_losing_alignment() {
    let mut d = Demuxer::new();
    let mut fb = FrameBuffer::new();
    let stream = [
        "Plateau 2 2:",
        "    01",
        "000 ..",
        "001 ..",
        "Piece 1 2:",
        "O.",
        "",
        "Plateau 2 2:",
        "    01",
        "000 o.",
        "001 ..",
        "== 3",
        "7",
    ];
    for line in stream.iter() {
        let _ = feed(&mut d, &mut fb, line);
    }
    assert_eq!(fb.len(), 2);
    assert_eq!(d.scores, Some((3, 7)));
    assert!(matches!(
        d.state,
        DemuxState::Ended { reason: EndReason::ScoreBanner }
    ));
    assert_eq!(fb.get(1).maps()[0], vec![CellState::ActiveSecond, CellState::Empty]);
}

#[test]
fn unrecognized_header_drains_one_line_then_ends() {
    let mut d = Demuxer::new();
    assert!(d.push_line("something else").unwrap().is_none());
    assert!(matches!(d.state, DemuxState::Drain));
    let ev = d.push_line("anything").unwrap();
    assert!(matches!(ev, Some(StreamEvent::StreamEnded)));
    assert!(matches!(
        d.state,
        DemuxState::Ended { reason: EndReason::UnrecognizedHeader }
    ));
}

#[test]
fn closing_the_source_is_its_own_terminal_reason() {
    let mut d = Demuxer::new();
    let ev = d.close();
    assert!(matches!(ev, Some(StreamEvent::StreamEnded)));
    assert!(matches!(
        d.state,
        DemuxState::Ended { reason: EndReason::StreamClosed }
    ));
    // the terminal event is produced exactly once
    assert!(d.close().is_none());
    assert!(d.push_line("Plateau 2 2:").unwrap().is_none());
    assert!(d.is_ended());
}

#[test]
fn board_width_mismatch_ends_the_stream_with_a_failure() {
    let mut d = Demuxer::new();
    assert!(d.push_line("Plateau 2 2:").unwrap().is_none());
    assert!(d.push_line("    01").unwrap().is_none());
    assert_eq!(
        d.push_line("000 .x.").unwrap_err(),
        DecodeError::DimensionMismatch
    );
    assert!(matches!(
        d.state,
        DemuxState::Ended { reason: EndReason::DecodeFailure }
    ));
    // the one terminal event is still owed, and comes exactly once
    let ev = d.push_line("anything").unwrap();
    assert!(matches!(ev, Some(StreamEvent::StreamEnded)));
    assert!(d.push_line("anything").unwrap().is_none());
    assert!(d.close().is_none());
}

#[test]
fn malformed_board_header_ends_the_stream_with_a_failure() {
    let mut d = Demuxer::new();
    assert_eq!(
        d.push_line("Plateau").unwrap_err(),
        DecodeError::MalformedHeader
    );
    assert!(matches!(
        d.state,
        DemuxState::Ended { reason: EndReason::DecodeFailure }
    ));
}

#[test]
fn malformed_second_score_ends_the_stream_with_a_failure() {
    let mut d = Demuxer::new();
    assert!(d.push_line("== 12").unwrap().is_none());
    assert_eq!(
        d.push_line("no digits").unwrap_err(),
        DecodeError::MalformedScore
    );
    assert_eq!(d.scores, None);
    // closing after the failure still delivers the single terminal event
    let ev = d.close();
    assert!(matches!(ev, Some(StreamEvent::StreamEnded)));
    assert!(d.close().is_none());
}

#[test]
fn appended_frame_is_read_back_fully_formed() {
    let mut fb = FrameBuffer::new();
    let lines: Vec<String> = vec!["000 .x".to_string(), "001 oO".to_string()];
    let b = Board::read("Plateau 2 2:", &lines).unwrap();
    fb.append(b);
    assert_eq!(fb.len(), 1);
    let lines2: Vec<String> = vec!["000 xx".to_string(), "001 OO".to_string()];
    let b2 = Board::read("Plateau 2 2:", &lines2).unwrap();
    fb.append(b2);
    assert_eq!(fb.len(), 2);
    // the earlier frame is untouched, the newest is exactly what went in
    assert_eq!(fb.get(0).maps()[0], vec![CellState::Empty, CellState::ActiveFirst]);
    let last = fb.get(fb.len() - 1);
    assert_eq!(last.maps()[0], vec![CellState::ActiveFirst, CellState::ActiveFirst]);
    assert_eq!(last.maps()[1], vec![CellState::OwnedSecond, CellState::OwnedSecond]);
}

#[test]
fn hud_carries_names_counts_and_cursor() {
    let p1 = Player::from_line("$$$ exec p1 : [/bin/agent.filler]").unwrap();
    let p2 = Player::from_line("$$$ exec p2 : [/bin/champion.filler]").unwrap();
    let players = vec![p1, p2];
    let lines: Vec<String> = vec!["000 .xX".to_string(), "001 oOx".to_string()];
    let b = Board::read("Plateau 2 3:", &lines).unwrap();
    let e = PlaybackEngine::new(0);
    let h = make_hud(&players, &b, &e, 4);
    assert_eq!(h.player1_name, "agent");
    assert_eq!(h.player2_name, "champion");
    // each name is paired with its own symbol's cells: agent decoded the
    // second symbol (o/O, 2 cells), champion the first (x/X, 3 cells)
    assert_eq!(h.player1_count, 2);
    assert_eq!(h.player2_count, 3);
    assert_eq!(h.speed_percent, 25);
    assert_eq!(h.cursor, 0);
    assert_eq!(h.loaded_count, 4);
}
