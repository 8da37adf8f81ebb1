use textedit::reconcile::{
    check_line_wf, check_lines_wf, reconcile, BufferLine, StyledSpan, TextSection,
};

fn line(text: &[u8], ending: &[u8], spans: Vec<StyledSpan>) -> BufferLine {
    BufferLine { text: text.to_vec(), ending: ending.to_vec(), spans }
}

fn sec(tag: u64, text: &[u8]) -> TextSection {
    TextSection { tag, text: text.to_vec() }
}

#[test]
fn gaps_inherit_following_span_and_trailing_gap_inherits_previous() {
    // a 21-byte line, spans [2,7) and [9,12), the rest unstyled
    let text: Vec<u8> = (b'a'..=b'u').collect();
    assert_eq!(text.len(), 21);
    let lines = vec![line(
        &text,
        b"",
        vec![
            StyledSpan { start: 2, end: 7, section: 0 },
            StyledSpan { start: 9, end: 12, section: 1 },
        ],
    )];
    let mut sections = vec![sec(10, b"old0"), sec(20, b"old1")];
    assert!(check_lines_wf(&lines));
    reconcile(&lines, &mut sections);
    assert_eq!(sections.len(), 2);
    assert_eq!(sections[0].tag, 10);
    assert_eq!(sections[0].text, text[0..7].to_vec());
    assert_eq!(sections[1].tag, 20);
    assert_eq!(sections[1].text, text[7..21].to_vec());
}

#[test]
fn deleting_all_content_clears_the_last_section_instead_of_removing_it() {
    let lines = vec![line(b"", b"", vec![])];
    let mut sections = vec![sec(7, b"hello")];
    reconcile(&lines, &mut sections);
    assert_eq!(sections.len(), 1);
    assert_eq!(sections[0].tag, 7);
    assert_eq!(sections[0].text, Vec::<u8>::new());
}

#[test]
fn untouched_sections_are_removed_in_a_way_that_keeps_the_rest() {
    let lines = vec![line(
        b"world",
        b"",
        vec![StyledSpan { start: 0, end: 5, section: 1 }],
    )];
    let mut sections = vec![sec(1, b"a"), sec(2, b"b"), sec(3, b"c")];
    reconcile(&lines, &mut sections);
    assert_eq!(sections.len(), 1);
    assert_eq!(sections[0].tag, 2);
    assert_eq!(sections[0].text, b"world".to_vec());
}

#[test]
fn line_ending_is_appended_when_the_line_is_consumed() {
    let lines = vec![
        line(b"ab", b"\n", vec![StyledSpan { start: 0, end: 2, section: 0 }]),
        line(b"cd", b"", vec![StyledSpan { start: 0, end: 2, section: 0 }]),
    ];
    let mut sections = vec![sec(0, b"")];
    reconcile(&lines, &mut sections);
    assert_eq!(sections[0].text, b"ab\ncd".to_vec());
}

#[test]
fn a_line_without_spans_goes_to_the_first_section() {
    let lines = vec![line(b"xy", b"\n", vec![])];
    let mut sections = vec![sec(5, b""), sec(6, b"later")];
    reconcile(&lines, &mut sections);
    assert_eq!(sections.len(), 1);
    assert_eq!(sections[0].tag, 5);
    assert_eq!(sections[0].text, b"xy\n".to_vec());
}

#[test]
fn sections_accumulate_across_lines() {
    let lines = vec![
        line(b"ab", b"\n", vec![StyledSpan { start: 0, end: 2, section: 0 }]),
        line(b"cdef", b"", vec![
            StyledSpan { start: 0, end: 2, section: 0 },
            StyledSpan { start: 2, end: 4, section: 1 },
        ]),
    ];
    let mut sections = vec![sec(0, b""), sec(1, b"")];
    reconcile(&lines, &mut sections);
    assert_eq!(sections[0].text, b"ab\ncd".to_vec());
    assert_eq!(sections[1].text, b"ef".to_vec());
}

#[test]
fn empty_section_list_stays_empty() {
    let lines = vec![line(b"xy", b"", vec![])];
    let mut sections: Vec<TextSection> = vec![];
    reconcile(&lines, &mut sections);
    assert!(sections.is_empty());
}

#[test]
fn well_formedness_check_rejects_overlap_and_out_of_range() {
    let overlapping = line(b"abcd", b"", vec![
        StyledSpan { start: 0, end: 3, section: 0 },
        StyledSpan { start: 2, end: 4, section: 1 },
    ]);
    assert!(!check_line_wf(&overlapping));
    let out_of_range = line(b"ab", b"", vec![StyledSpan { start: 0, end: 3, section: 0 }]);
    assert!(!check_line_wf(&out_of_range));
    let fine = line(b"abcd", b"", vec![
        StyledSpan { start: 0, end: 2, section: 0 },
        StyledSpan { start: 2, end: 4, section: 1 },
    ]);
    assert!(check_line_wf(&fine));
    assert!(check_lines_wf(&vec![fine]));
}

#[test]
fn a_blank_line_keeps_its_ending() {
    let lines = vec![
        line(b"a", b"\n", vec![StyledSpan { start: 0, end: 1, section: 0 }]),
        line(b"", b"\n", vec![]),
        line(b"b", b"", vec![StyledSpan { start: 0, end: 1, section: 0 }]),
    ];
    let mut sections = vec![sec(0, b"")];
    reconcile(&lines, &mut sections);
    assert_eq!(sections.len(), 1);
    assert_eq!(sections[0].text, b"a\n\nb".to_vec());
}

#[test]
fn a_blank_line_alone_hands_its_ending_to_the_first_section() {
    let lines = vec![line(b"", b"\n", vec![])];
    let mut sections = vec![sec(3, b"x"), sec(4, b"y")];
    reconcile(&lines, &mut sections);
    assert_eq!(sections.len(), 1);
    assert_eq!(sections[0].tag, 3);
    assert_eq!(sections[0].text, b"\n".to_vec());
}
