use recolor::color::{get_256c, get_8c, Rgb};
use recolor::profile::{filter, transform_channel, Kind};
use recolor::rewrite::DefaultReset;
use recolor::scanner::{filter_bytes, Filter, FilterError};
use recolor::sgr::{parse_tokens, without_brackets};

const TRAILER: &[u8] = b"\x1b[0m\x1b[K";

fn run(kind: Kind, reset: DefaultReset, input: &[u8]) -> Result<Vec<u8>, FilterError> {
    filter_bytes(kind, reset, &input.to_vec())
}

fn with_trailer(body: &[u8]) -> Vec<u8> {
    let mut v = body.to_vec();
    v.extend_from_slice(TRAILER);
    v
}

fn normal(input: &[u8]) -> Vec<u8> {
    run(Kind::Normal, DefaultReset::Expand, input).unwrap()
}

#[test]
fn truecolor_red_identity_is_exact() {
    assert_eq!(normal(b"\x1b[38;2;255;0;0m"), with_trailer(b"\x1b[38;2;255;0;0m"));
}

#[test]
fn truecolor_background_identity_is_exact() {
    assert_eq!(normal(b"\x1b[48;2;12;34;56m"), with_trailer(b"\x1b[48;2;12;34;56m"));
}

#[test]
fn basic_codes_identity_resolve_to_palette() {
    assert_eq!(normal(b"\x1b[31m"), with_trailer(b"\x1b[38;2;237;135;150m"));
    assert_eq!(normal(b"\x1b[91m"), with_trailer(b"\x1b[38;2;237;135;150m"));
    assert_eq!(normal(b"\x1b[40m"), with_trailer(b"\x1b[48;2;73;77;100m"));
    assert_eq!(normal(b"\x1b[107m"), with_trailer(b"\x1b[48;2;184;192;224m"));
    assert_eq!(normal(b"\x1b[30m"), with_trailer(b"\x1b[38;2;73;77;100m"));
    assert_eq!(normal(b"\x1b[90m"), with_trailer(b"\x1b[38;2;91;96;120m"));
    assert_eq!(normal(b"\x1b[37m"), with_trailer(b"\x1b[38;2;165;173;203m"));
}

#[test]
fn monochrome_gives_equal_channels() {
    let out = run(Kind::ColorBlind, DefaultReset::Expand, b"\x1b[38;2;255;0;0m").unwrap();
    assert_eq!(out, with_trailer(b"\x1b[38;2;76;76;76m"));
    let out = run(Kind::ColorBlind, DefaultReset::Expand, b"\x1b[48;2;10;20;30m").unwrap();
    assert_eq!(out, with_trailer(b"\x1b[48;2;18;18;18m"));
    let out = run(Kind::ColorBlind, DefaultReset::Expand, b"\x1b[38;2;255;255;255m").unwrap();
    assert_eq!(out, with_trailer(b"\x1b[38;2;255;255;255m"));
}

#[test]
fn reset_expands_to_default_colors() {
    assert_eq!(
        normal(b"\x1b[0m"),
        with_trailer(b"\x1b[0;38;2;202;211;245;48;2;36;39;58m")
    );
    let out = run(Kind::ColorBlind, DefaultReset::PassThrough, b"\x1b[0m").unwrap();
    assert_eq!(out, with_trailer(b"\x1b[0;38;2;212;212;212;48;2;40;40;40m"));
}

#[test]
fn literal_bytes_pass_unchanged() {
    let text = "plain h\u{e9}llo w\u{f6}rld \u{4e16}\u{754c}\nnext line\t!".as_bytes();
    assert_eq!(normal(text), with_trailer(text));
}

#[test]
fn literal_bytes_around_sequences_keep_order() {
    assert_eq!(
        normal(b"a\x1b[1mb\x1b[2Jc"),
        with_trailer(b"a\x1b[1mb\x1b[2Jc")
    );
}

#[test]
fn trailer_always_appended() {
    assert_eq!(normal(b""), TRAILER.to_vec());
    let out = normal(b"x\x1b[0m\x1b[K");
    assert!(out.ends_with(TRAILER));
    assert_eq!(
        out,
        with_trailer(b"x\x1b[0;38;2;202;211;245;48;2;36;39;58m\x1b[K")
    );
}

#[test]
fn truncated_rgb_keeps_prefix() {
    assert_eq!(normal(b"\x1b[38;2;255m"), with_trailer(b"\x1b[38;2m"));
    assert_eq!(normal(b"\x1b[48;2;1;2m"), with_trailer(b"\x1b[48;2m"));
    assert_eq!(normal(b"\x1b[38;2m"), with_trailer(b"\x1b[38;2m"));
}

#[test]
fn palette_gray_ramp_ends() {
    assert_eq!(normal(b"\x1b[38;5;232m"), with_trailer(b"\x1b[38;2;0;0;0m"));
    assert_eq!(normal(b"\x1b[38;5;255m"), with_trailer(b"\x1b[38;2;244;244;244m"));
    assert_eq!(get_256c(232), Rgb { r: 0, g: 0, b: 0 });
    assert_eq!(get_256c(255), Rgb { r: 1955, g: 1955, b: 1955 });
}

#[test]
fn palette_cube_and_basic_entries() {
    assert_eq!(normal(b"\x1b[38;5;196m"), with_trailer(b"\x1b[38;2;255;0;0m"));
    assert_eq!(normal(b"\x1b[48;5;21m"), with_trailer(b"\x1b[48;2;0;0;255m"));
    assert_eq!(normal(b"\x1b[38;5;110m"), with_trailer(b"\x1b[38;2;102;153;204m"));
    assert_eq!(normal(b"\x1b[38;5;9m"), with_trailer(b"\x1b[38;2;237;135;150m"));
    assert_eq!(normal(b"\x1b[38;5;1m"), with_trailer(b"\x1b[38;2;237;135;150m"));
    assert_eq!(normal(b"\x1b[38;5;8m"), with_trailer(b"\x1b[38;2;91;96;120m"));
}

#[test]
fn palette_without_index_keeps_prefix() {
    assert_eq!(normal(b"\x1b[38;5m"), with_trailer(b"\x1b[38;2m"));
}

#[test]
fn unknown_selector_and_bare_code_pass() {
    assert_eq!(normal(b"\x1b[38;7;1m"), with_trailer(b"\x1b[38;7;1m"));
    assert_eq!(normal(b"\x1b[48;9m"), with_trailer(b"\x1b[48;9m"));
    assert_eq!(normal(b"\x1b[48m"), with_trailer(b"\x1b[48m"));
}

#[test]
fn other_tokens_pass_and_groups_join() {
    assert_eq!(
        normal(b"\x1b[1;4;31;7m"),
        with_trailer(b"\x1b[1;4;38;2;237;135;150;7m")
    );
}

#[test]
fn unparsable_token_stops_the_list() {
    assert_eq!(normal(b"\x1b[1;2:3;31m"), with_trailer(b"\x1b[1m"));
    assert_eq!(normal(b"\x1b[1;256;31m"), with_trailer(b"\x1b[1m"));
    assert_eq!(normal(b"\x1b[300m"), with_trailer(b""));
    assert_eq!(normal(b"\x1b[m"), with_trailer(b""));
    assert_eq!(normal(b"\x1b[4;m"), with_trailer(b"\x1b[4m"));
}

#[test]
fn plus_sign_and_leading_zeros_read() {
    assert_eq!(normal(b"\x1b[+31m"), with_trailer(b"\x1b[38;2;237;135;150m"));
    assert_eq!(normal(b"\x1b[0001m"), with_trailer(b"\x1b[1m"));
}

#[test]
fn other_sequences_pass_verbatim() {
    assert_eq!(normal(b"\x1b[2J\x1b[10;5H\x1b(B"), with_trailer(b"\x1b[2J\x1b[10;5H\x1b(B"));
}

#[test]
fn line_feed_inside_sequence_neutralizes_line() {
    assert_eq!(
        normal(b"\x1b[3\n1m"),
        with_trailer(b"\x1b[38;2;202;211;245;48;2;36;39;58m\x1b[K\x1b[38;2;237;135;150m")
    );
}

#[test]
fn unfinished_sequence_is_dropped() {
    assert_eq!(normal(b"ab\x1b[31"), with_trailer(b"ab"));
}

#[test]
fn parameters_not_text_fail() {
    assert_eq!(run(Kind::Normal, DefaultReset::Expand, b"\x1b[\xffm"), Err(FilterError::NotText));
    assert_eq!(run(Kind::Normal, DefaultReset::Expand, b"ok\x1b\xc3(B"), Err(FilterError::NotText));
    assert_eq!(
        normal("\x1b[\u{e9}m".as_bytes()),
        with_trailer(b"")
    );
}

#[test]
fn default_color_codes_follow_the_choice() {
    assert_eq!(normal(b"\x1b[39;49m"), with_trailer(b"\x1b[38;2;202;211;245;48;2;36;39;58m"));
    let out = run(Kind::Normal, DefaultReset::PassThrough, b"\x1b[39;49m").unwrap();
    assert_eq!(out, with_trailer(b"\x1b[39;49m"));
}

#[test]
fn red_blind_transform_truncates() {
    let out = run(Kind::RedBlind, DefaultReset::Expand, b"\x1b[38;2;255;0;0m").unwrap();
    assert_eq!(out, with_trailer(b"\x1b[38;2;144;142;0m"));
}

#[test]
fn oversized_rows_clamp() {
    let out = run(Kind::BlueBlind, DefaultReset::Expand, b"\x1b[38;2;255;255;255m").unwrap();
    assert_eq!(out, with_trailer(b"\x1b[38;2;255;255;255m"));
    let out = run(Kind::GreenWeak, DefaultReset::Expand, b"\x1b[38;2;0;0;10m").unwrap();
    assert_eq!(out, with_trailer(b"\x1b[38;2;0;0;255m"));
}

#[test]
fn streaming_matches_whole_input() {
    let input = b"hi \x1b[1;32mgreen\x1b[0m\n";
    let mut f = Filter::new(Kind::ColorWeak, DefaultReset::Expand);
    let mut out = Vec::new();
    for &b in input.iter() {
        f.feed(b, &mut out).unwrap();
    }
    f.finish(&mut out);
    assert_eq!(out, run(Kind::ColorWeak, DefaultReset::Expand, input).unwrap());
}

#[test]
fn neutralize_line_writes_defaults() {
    let f = Filter::new(Kind::Normal, DefaultReset::Expand);
    let mut out = Vec::new();
    f.neutralize_line(&mut out);
    assert_eq!(out, b"\x1b[38;2;202;211;245;48;2;36;39;58m\x1b[K".to_vec());
}

#[test]
fn resolver_and_transform_values() {
    assert_eq!(get_8c(31, false), Rgb::from_levels(0xed, 0x87, 0x96));
    assert_eq!(get_8c(107, true), Rgb::from_levels(0xb8, 0xc0, 0xe0));
    let m = Kind::ColorBlind.get_matrix();
    assert_eq!(transform_channel(&m.red, &Rgb::from_levels(10, 20, 30)), 18);
    let mut new = vec![1u8];
    filter(false, Rgb::from_levels(1, 2, 3), &Kind::Normal.get_matrix(), &mut new);
    assert_eq!(new, vec![1, 48, 2, 1, 2, 3]);
}

#[test]
fn brackets_are_stripped_and_fields_split() {
    let s = without_brackets(&b"[1;[2;33".to_vec());
    assert_eq!(s, b"1;2;33".to_vec());
    assert_eq!(parse_tokens(&s), vec![1, 2, 33]);
    assert_eq!(parse_tokens(&b"5;;6".to_vec()), vec![5]);
}
