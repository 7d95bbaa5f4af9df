use rtime::record::{last_start, FoundStart};
use std::io::BufRead;

fn found(line: &str, stamp: &str) -> Option<FoundStart> {
    Some(FoundStart { line: String::from(line), stamp: String::from(stamp) })
}

/// The last line that begins with the prefix, by the lines that std gives.
fn by_std_lines(text: &str) -> Option<FoundStart> {
    let mut last = None;
    for line in text.as_bytes().lines() {
        let line = line.unwrap();
        if line.starts_with("Start: ") {
            let stamp = String::from(&line[7..]);
            last = Some(FoundStart { line, stamp });
        }
    }
    last
}

#[test]
fn no_record_in_an_empty_text() {
    assert_eq!(last_start(""), None);
}

#[test]
fn no_record_where_no_line_begins_with_the_prefix() {
    assert_eq!(last_start("\n"), None);
    assert_eq!(last_start("\n\n\n"), None);
    assert_eq!(last_start("nothing here\n"), None);
    assert_eq!(last_start("Stop: 2024-05-06T07:08:09.000000010Z\n"), None);
    assert_eq!(last_start("start: 2024-05-06T07:08:09.000000010Z\n"), None);
    assert_eq!(last_start("START: 2024-05-06T07:08:09.000000010Z\n"), None);
    assert_eq!(last_start("Start:2024-05-06T07:08:09.000000010Z\n"), None);
    assert_eq!(last_start("Start:\t2024-05-06T07:08:09.000000010Z\n"), None);
    assert_eq!(last_start("Start:"), None);
    assert_eq!(last_start("Start"), None);
    assert_eq!(last_start("Start:\n 2024\n"), None);
}

#[test]
fn the_prefix_counts_only_at_the_beginning_of_a_line() {
    assert_eq!(last_start(" Start: 2024\n"), None);
    assert_eq!(last_start("xStart: 2024\n"), None);
    assert_eq!(last_start("Stop, Start: 2024\n"), None);
    assert_eq!(last_start("\rStart: 2024\n"), None);
    assert_eq!(last_start("Start: 1\nxStart: 2\n"), found("Start: 1", "1"));
}

#[test]
fn one_record() {
    assert_eq!(
        last_start("Start: 2024-05-06T07:08:09.000000010Z\n"),
        found("Start: 2024-05-06T07:08:09.000000010Z", "2024-05-06T07:08:09.000000010Z")
    );
}

#[test]
fn the_last_of_several_records() {
    assert_eq!(last_start("Start: 1\nStart: 2\n"), found("Start: 2", "2"));
    assert_eq!(last_start("Start: 1\nStart: 2\nStart: 3\n"), found("Start: 3", "3"));
    assert_eq!(last_start("Start: 2\nStart: 1\n"), found("Start: 1", "1"));
    assert_eq!(last_start("Start: same\nStart: same\n"), found("Start: same", "same"));
}

#[test]
fn other_lines_are_passed_over() {
    assert_eq!(last_start("note\nStart: 1\nnote\n"), found("Start: 1", "1"));
    assert_eq!(last_start("Start: 1\n\n\n"), found("Start: 1", "1"));
    assert_eq!(last_start("\n\nStart: 1\n"), found("Start: 1", "1"));
    assert_eq!(last_start("Start: 1\nStop: 2\nEnd\n"), found("Start: 1", "1"));
}

#[test]
fn a_last_line_without_line_feed_counts() {
    assert_eq!(last_start("Start: 1"), found("Start: 1", "1"));
    assert_eq!(last_start("Start: 1\nStart: 2"), found("Start: 2", "2"));
    assert_eq!(last_start("note\nStart: 2"), found("Start: 2", "2"));
}

#[test]
fn a_record_may_have_an_empty_stamp() {
    assert_eq!(last_start("Start: "), found("Start: ", ""));
    assert_eq!(last_start("Start: \n"), found("Start: ", ""));
    assert_eq!(last_start("Start: \r\n"), found("Start: ", ""));
    assert_eq!(last_start("Start: 1\nStart: \n"), found("Start: ", ""));
}

#[test]
fn a_carriage_return_before_the_line_feed_is_left_out() {
    assert_eq!(last_start("Start: 1\r\n"), found("Start: 1", "1"));
    assert_eq!(last_start("Start: 1\r\nStart: 2\r\n"), found("Start: 2", "2"));
    assert_eq!(last_start("Start: 1\r\r\n"), found("Start: 1\r", "1\r"));
    assert_eq!(last_start("Start: 1\r2\n"), found("Start: 1\r2", "1\r2"));
}

#[test]
fn a_carriage_return_at_the_end_of_the_text_stays() {
    assert_eq!(last_start("Start: 1\r"), found("Start: 1\r", "1\r"));
    assert_eq!(last_start("Start: \r"), found("Start: \r", "\r"));
}

#[test]
fn the_stamp_is_taken_as_it_stands() {
    assert_eq!(last_start("Start:  1 \n"), found("Start:  1 ", " 1 "));
    assert_eq!(last_start("Start: Start: 1\n"), found("Start: Start: 1", "Start: 1"));
    assert_eq!(last_start("Start: garbage\n"), found("Start: garbage", "garbage"));
}

#[test]
fn characters_beyond_ascii_count_as_one_each() {
    assert_eq!(last_start("Start: é\n"), found("Start: é", "é"));
    assert_eq!(last_start("ééé\nStart: 1\n"), found("Start: 1", "1"));
    assert_eq!(last_start("Start: 1\n日本語\n"), found("Start: 1", "1"));
    assert_eq!(last_start("日本語Start: 1\n"), None);
    assert_eq!(last_start("Start: 😀😀\r\n"), found("Start: 😀😀", "😀😀"));
    assert_eq!(last_start("é\r\nStart: 日本\r\nü"), found("Start: 日本", "日本"));
}

#[test]
fn the_record_is_the_one_that_std_lines_give() {
    let texts = [
        "",
        "\n",
        "\r\n",
        "\r",
        "Start: ",
        "Start: \r",
        "Start: \r\n",
        "Start: a",
        "Start: a\n",
        "Start: a\r\n",
        "Start: a\r\r\n",
        "Start: a\n\r\n",
        "Start: a\nStart: b",
        "Start: a\nStart: b\n",
        "Start: a\n\nStart: b\r\n\n",
        "x\nStart: a\ny\nStart: b\nz",
        "Start: a\nStart:b\n",
        "Start: a\n Start: b\n",
        "Start: a\nStar",
        "Start: a\nStart: ",
        "Start",
        "Start: é\nñ\n",
        "Start: a\r\nStart: b\rStart: c\n",
    ];
    for text in texts {
        assert_eq!(last_start(text), by_std_lines(text));
    }
}
