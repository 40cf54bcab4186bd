use filler_view::board::{Board, CellState};
use filler_view::piece::{Piece, PieceCell};
use filler_view::player::{get_players, Player, PlayerSymbol};
use filler_view::scan::{decode_count, decode_dims, get_score, DecodeError};

#[test]
fn score_keeps_digits_only() {
    assert_eq!(get_score("== 12"), Ok(12));
    assert_eq!(get_score("30"), Ok(30));
    assert_eq!(get_score("a4b2c"), Ok(42));
}

#[test]
fn score_digit_extraction_is_idempotent() {
    // the embedded digit sequences agree, so the decorations cannot matter
    assert_eq!(decode_count("14x21xx"), decode_count("14 21"));
    assert_eq!(decode_count("14x21xx"), Some(1421));
}

#[test]
fn score_without_digits_is_malformed() {
    assert_eq!(get_score("== "), Err(DecodeError::MalformedScore));
    assert_eq!(get_score(""), Err(DecodeError::MalformedScore));
}

#[test]
fn score_overflowing_is_malformed() {
    assert_eq!(get_score("4294967295"), Ok(u32::MAX));
    assert_eq!(get_score("4294967296"), Err(DecodeError::MalformedScore));
    assert_eq!(get_score("99999999999999999999"), Err(DecodeError::MalformedScore));
}

#[test]
fn dims_come_from_second_and_third_tokens() {
    assert_eq!(decode_dims("Plateau 14 21:"), Ok((14, 21)));
    assert_eq!(decode_dims("Piece 2 3:"), Ok((2, 3)));
}

#[test]
fn dims_with_too_few_tokens_are_malformed() {
    assert_eq!(decode_dims(""), Err(DecodeError::MalformedHeader));
    assert_eq!(decode_dims("Plateau"), Err(DecodeError::MalformedHeader));
    assert_eq!(decode_dims("Plateau 14"), Err(DecodeError::MalformedHeader));
}

#[test]
fn dims_without_digits_are_malformed() {
    assert_eq!(decode_dims("Plateau xx yy:"), Err(DecodeError::MalformedHeader));
}

#[test]
fn board_rows_and_columns_match_the_header() {
    let lines: Vec<String> = vec!["000 .xX".to_string(), "001 oO.".to_string()];
    let b = Board::read("Plateau 2 3:", &lines).unwrap();
    assert_eq!(b.height(), 2);
    assert_eq!(b.width(), 3);
    let maps = b.maps();
    assert_eq!(maps.len(), 2);
    for row in maps.iter() {
        assert_eq!(row.len(), 3);
    }
    assert_eq!(
        maps[0],
        vec![CellState::Empty, CellState::ActiveFirst, CellState::OwnedFirst]
    );
    assert_eq!(
        maps[1],
        vec![CellState::ActiveSecond, CellState::OwnedSecond, CellState::Empty]
    );
}

#[test]
fn board_grid_filter_drops_decoration() {
    // row labels and stray characters carry no cells
    let lines: Vec<String> = vec!["010 .x!?\n".to_string()];
    let b = Board::read("Plateau 1 2:", &lines).unwrap();
    assert_eq!(b.maps()[0], vec![CellState::Empty, CellState::ActiveFirst]);
}

#[test]
fn board_with_row_count_mismatch_is_refused() {
    let lines: Vec<String> = vec!["000 ..".to_string()];
    assert_eq!(
        Board::read("Plateau 2 2:", &lines).unwrap_err(),
        DecodeError::DimensionMismatch
    );
}

#[test]
fn board_with_row_width_mismatch_is_refused() {
    let lines: Vec<String> = vec!["000 ..".to_string(), "001 .".to_string()];
    assert_eq!(
        Board::read("Plateau 2 2:", &lines).unwrap_err(),
        DecodeError::DimensionMismatch
    );
}

#[test]
fn board_with_malformed_header_is_refused() {
    let lines: Vec<String> = vec![];
    assert_eq!(
        Board::read("Plateau", &lines).unwrap_err(),
        DecodeError::MalformedHeader
    );
}

#[test]
fn board_counts_both_players() {
    let lines: Vec<String> = vec!["000 .xX".to_string(), "001 oOx".to_string()];
    let b = Board::read("Plateau 2 3:", &lines).unwrap();
    assert_eq!(b.counts(), (3, 2));
}

#[test]
fn piece_keeps_declared_dims_and_filtered_rows() {
    let lines: Vec<String> = vec!["O.".to_string(), ".O".to_string()];
    let p = Piece::read("Piece 2 2:", &lines).unwrap();
    assert_eq!(p.height, 2);
    assert_eq!(p.width, 2);
    assert_eq!(p.piece[0], vec![PieceCell::Filled, PieceCell::Empty]);
    assert_eq!(p.piece[1], vec![PieceCell::Empty, PieceCell::Filled]);
}

#[test]
fn piece_with_row_count_mismatch_is_refused() {
    let lines: Vec<String> = vec!["O.".to_string()];
    assert_eq!(
        Piece::read("Piece 2 2:", &lines).unwrap_err(),
        DecodeError::DimensionMismatch
    );
}

#[test]
fn piece_with_malformed_header_is_refused() {
    let lines: Vec<String> = vec![];
    assert_eq!(
        Piece::read("Piece x", &lines).unwrap_err(),
        DecodeError::MalformedHeader
    );
}

#[test]
fn player_path_segment_names_the_player() {
    let p = Player::from_line("$$$ exec p1 : [/bin/agent.filler]").unwrap();
    assert_eq!(p.name(), "agent");
    assert_eq!(p.sym, PlayerSymbol::Second);
}

#[test]
fn player_without_slash_falls_back_to_bracket_interior() {
    let p = Player::from_line("$$$ exec p2 : [champion.filler]").unwrap();
    assert_eq!(p.name(), "champion");
    assert_eq!(p.sym, PlayerSymbol::First);
}

#[test]
fn player_without_suffix_token_ends_at_last_bracket() {
    let p = Player::from_line("$$$ exec p2 : [warrior]").unwrap();
    assert_eq!(p.name(), "warrior");
    assert_eq!(p.sym, PlayerSymbol::First);
}

#[test]
fn player_line_without_boundaries_is_malformed() {
    assert_eq!(
        Player::from_line("no boundaries here").unwrap_err(),
        DecodeError::MalformedPlayerLine
    );
    // an end boundary alone does not help without an opening bracket
    assert_eq!(
        Player::from_line("only a closing mark ] here").unwrap_err(),
        DecodeError::MalformedPlayerLine
    );
}

#[test]
fn players_come_from_the_startup_block() {
    let mut lines: Vec<String> = Vec::new();
    for _ in 0..6 {
        lines.push("banner".to_string());
    }
    lines.push("ignored".to_string());
    lines.push("$$$ exec p1 : [/bin/agent.filler]".to_string());
    lines.push("ignored".to_string());
    lines.push("$$$ exec p2 : [/usr/share/champion.filler]".to_string());
    let ps = get_players(&lines).unwrap();
    assert_eq!(ps.len(), 2);
    assert_eq!(ps[0].name(), "agent");
    assert_eq!(ps[0].sym, PlayerSymbol::Second);
    assert_eq!(ps[1].name(), "champion");
    assert_eq!(ps[1].sym, PlayerSymbol::First);
}

#[test]
fn truncated_startup_block_is_fatal() {
    let lines: Vec<String> = vec!["banner".to_string(); 9];
    assert_eq!(
        get_players(&lines).unwrap_err(),
        DecodeError::MalformedPlayerLine
    );
}
