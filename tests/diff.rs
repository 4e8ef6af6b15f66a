use grit::diff::{split_text, DiffModel, DiffStats, LineType, RawLine};

fn raw(origin: char, content: &str) -> RawLine {
    RawLine { origin, content: content.to_string() }
}

fn stats(f: usize, i: usize, d: usize) -> DiffStats {
    DiffStats { files_changed: f, insertions: i, deletions: d }
}

#[test]
fn classifies_each_kind_of_line() {
    let lines = vec![
        raw('F', "diff --git a b\n--- a\n+++ b"),
        raw('H', "@@ -1,2 +1,2 @@"),
        raw('+', "new"),
        raw('-', "old"),
        raw(' ', "same"),
    ];
    let model = DiffModel::build(stats(1, 1, 1), &lines);
    let got: Vec<(LineType, &str)> = model.lines.iter().map(|l| (l.kind, l.text.as_str())).collect();
    assert_eq!(
        got,
        vec![
            (LineType::FileHeader, "diff --git a b"),
            (LineType::FileHeader, "--- a"),
            (LineType::FileHeader, "+++ b"),
            (LineType::HunkHeader, "@@ -1,2 +1,2 @@"),
            (LineType::Insertion, "+ new"),
            (LineType::Deletion, "- old"),
            (LineType::Context, "  same"),
        ]
    );
    assert_eq!(model.stats, stats(1, 1, 1));
}

#[test]
fn file_header_with_trailing_break_keeps_empty_piece() {
    let model = DiffModel::build(stats(1, 0, 0), &vec![raw('F', "a\nb\n")]);
    let texts: Vec<&str> = model.lines.iter().map(|l| l.text.as_str()).collect();
    assert_eq!(texts, vec!["a", "b", ""]);
    assert!(model.lines.iter().all(|l| l.kind == LineType::FileHeader));
}

#[test]
fn other_markers_are_context() {
    let model = DiffModel::build(stats(0, 0, 0), &vec![raw('=', "x\n"), raw('>', "")]);
    assert_eq!(model.lines.len(), 2);
    assert_eq!(model.lines[0].kind, LineType::Context);
    assert_eq!(model.lines[0].text, "= x\n");
    assert_eq!(model.lines[1].kind, LineType::Context);
    assert_eq!(model.lines[1].text, "> ");
}

#[test]
fn insertion_keeps_its_line_break() {
    let model = DiffModel::build(stats(1, 1, 0), &vec![raw('+', "fn main() {}\n")]);
    assert_eq!(model.lines[0].kind, LineType::Insertion);
    assert_eq!(model.lines[0].text, "+ fn main() {}\n");
}

#[test]
fn hunk_header_is_kept_whole() {
    let model = DiffModel::build(stats(1, 0, 0), &vec![raw('H', "@@ -0,0 +1 @@\n")]);
    assert_eq!(model.lines.len(), 1);
    assert_eq!(model.lines[0].kind, LineType::HunkHeader);
    assert_eq!(model.lines[0].text, "@@ -0,0 +1 @@\n");
}

#[test]
fn empty_patch_gives_no_lines() {
    let model = DiffModel::build(stats(0, 0, 0), &vec![]);
    assert!(model.lines.is_empty());
}

#[test]
fn root_commit_model_is_empty() {
    let model = DiffModel::empty();
    assert_eq!(model.stats, stats(0, 0, 0));
    assert!(model.lines.is_empty());
}

#[test]
fn split_text_pieces() {
    assert_eq!(split_text(""), vec![String::new()]);
    assert_eq!(split_text("abc"), vec!["abc".to_string()]);
    assert_eq!(split_text("\n"), vec![String::new(), String::new()]);
    assert_eq!(split_text("é\nü"), vec!["é".to_string(), "ü".to_string()]);
}
