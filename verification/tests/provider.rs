use ninetyfive::anchor::{Anchor, Bias};
use ninetyfive::client::{RequestError, NINETYFIVE_API_URL};
use ninetyfive::interpolate::{interpolate, UserEdit};
use ninetyfive::ninetyfive::NinetyFive;
use ninetyfive::provider::{
    repo_name, Ancestor, BufferFile, CurrentCompletion, NinetyFiveCompletionProvider,
};
use ninetyfive::text::strip_prefix;
use std::ops::Range;

type Provider = NinetyFiveCompletionProvider<&'static str, &'static str>;

fn anchor(offset: usize) -> Anchor {
    Anchor { replica_id: 0, clock: 9, offset, bias: Bias::Right, buffer_id: None }
}

fn completion(text: &str) -> Vec<(Range<Anchor>, String)> {
    vec![(anchor(10)..anchor(10), text.to_string())]
}

fn edit(start: usize, end: usize, typed: &str, after: usize) -> UserEdit {
    UserEdit { old: start..end, typed: typed.to_string(), after: anchor(after) }
}

#[test]
fn no_edits_keep_the_completion() {
    assert_eq!(interpolate(&completion("héllo"), 10, &vec![]), Some(completion("héllo")));
}

#[test]
fn typing_the_beginning_leaves_the_rest() {
    let rest = interpolate(&completion("héllo"), 10, &vec![edit(10, 10, "hé", 12)]);
    assert_eq!(rest, Some(vec![(anchor(12)..anchor(12), "llo".to_string())]));
}

#[test]
fn typing_in_two_goes() {
    let first = interpolate(&completion("hello"), 10, &vec![edit(10, 10, "he", 12)]).unwrap();
    let second = interpolate(&first, 12, &vec![edit(12, 12, "ll", 14)]).unwrap();
    let at_once = interpolate(&completion("hello"), 10, &vec![edit(10, 10, "hell", 14)]).unwrap();
    assert_eq!(second, at_once);
    assert_eq!(second[0].1, "o");
}

#[test]
fn typing_all_of_it_or_something_else() {
    assert_eq!(interpolate(&completion("hi"), 10, &vec![edit(10, 10, "hi", 12)]), None);
    assert_eq!(interpolate(&completion("hi"), 10, &vec![edit(10, 10, "hit", 13)]), None);
    assert_eq!(interpolate(&completion("hi"), 10, &vec![edit(10, 10, "x", 11)]), None);
    assert_eq!(interpolate(&completion(""), 10, &vec![edit(10, 10, "", 10)]), None);
    assert_eq!(
        interpolate(&completion("hi"), 10, &vec![edit(10, 10, "", 10)]),
        Some(completion("hi"))
    );
}

#[test]
fn edits_around_the_cursor() {
    // Before the cursor, and around it.
    assert_eq!(interpolate(&completion("hi"), 10, &vec![edit(2, 3, "x", 3)]), None);
    assert_eq!(interpolate(&completion("hi"), 10, &vec![edit(8, 12, "x", 9)]), None);
    assert_eq!(interpolate(&completion("hi"), 10, &vec![edit(10, 12, "x", 11)]), None);
    // Up to the cursor, and after it.
    assert_eq!(interpolate(&completion("hi"), 10, &vec![edit(8, 10, "x", 9)]), Some(completion("hi")));
    assert_eq!(interpolate(&completion("hi"), 10, &vec![edit(11, 12, "x", 12)]), Some(completion("hi")));
    // The first edit that matters decides.
    let edits = vec![edit(20, 21, "", 20), edit(10, 10, "h", 11), edit(2, 3, "x", 3)];
    assert_eq!(interpolate(&completion("hi"), 10, &edits), Some(vec![(anchor(11)..anchor(11), "i".to_string())]));
}

#[test]
fn only_a_single_insertion_is_kept() {
    assert_eq!(interpolate(&vec![], 10, &vec![]), None);
    let mut two = completion("a");
    two.push((anchor(1)..anchor(1), "b".to_string()));
    assert_eq!(interpolate(&two, 10, &vec![]), None);
}

#[test]
fn prefixes() {
    let text = "añb".to_string();
    assert_eq!(strip_prefix(&text, &"añ".to_string()), Some("b".to_string()));
    assert_eq!(strip_prefix(&text, &"".to_string()), Some("añb".to_string()));
    assert_eq!(strip_prefix(&text, &"añb".to_string()), Some("".to_string()));
    assert_eq!(strip_prefix(&text, &"añbc".to_string()), None);
    assert_eq!(strip_prefix(&text, &"n".to_string()), None);
}

fn ancestor(name: Option<&str>, has_git: bool) -> Ancestor {
    Ancestor { name: name.map(|name| name.to_string()), has_git }
}

fn file(ancestors: Vec<Ancestor>) -> Option<BufferFile> {
    Some(BufferFile { path: "a/b.rs".to_string(), ancestors })
}

#[test]
fn the_innermost_repository_counts() {
    let nested = vec![
        ancestor(Some("b.rs"), false),
        ancestor(Some("inner"), true),
        ancestor(Some("outer"), true),
    ];
    assert_eq!(repo_name(&file(nested)), "inner");
    assert_eq!(repo_name(&file(vec![ancestor(Some("b.rs"), false)])), "unknown");
    assert_eq!(repo_name(&file(vec![ancestor(None, true), ancestor(Some("x"), true)])), "unknown");
    assert_eq!(repo_name(&None), "unknown");
}

fn showing(text: &str) -> Provider {
    let mut provider = Provider::new();
    provider.current_completion =
        Some(CurrentCompletion { snapshot: "snapshot", edits: completion(text), edit_preview: "preview" });
    provider
}

#[test]
fn suggests_what_is_on_display() {
    let provider = showing("hello");
    let suggestion =
        provider.suggest(10, &vec![edit(10, 10, "he", 12)], None, String::new(), 12, anchor(12));
    assert_eq!(suggestion.prediction.id, None);
    assert_eq!(suggestion.prediction.edits, vec![(anchor(12)..anchor(12), "llo".to_string())]);
    assert_eq!(suggestion.prediction.edit_preview, Some(&"preview"));
    assert!(suggestion.query.is_none());
}

#[test]
fn suggests_a_placeholder_and_asks() {
    let provider = showing("hello");
    let suggestion = provider.suggest(
        10,
        &vec![edit(10, 10, "x", 11)],
        file(vec![ancestor(Some("zed"), true)]),
        "content".to_string(),
        11,
        anchor(11),
    );
    assert_eq!(suggestion.prediction.edits, vec![(anchor(11)..anchor(11), "hello_ws_friend".to_string())]);
    assert_eq!(suggestion.prediction.edit_preview, None);
    let query = suggestion.query.unwrap();
    assert_eq!(query.pos, 11);
    assert_eq!(query.repo, "zed");
    assert_eq!(query.file_path, Some("a/b.rs".to_string()));
    assert_eq!(query.file_content, Some("content".to_string()));

    let provider = Provider::new();
    let query = provider.suggest(0, &vec![], None, "content".to_string(), 3, anchor(3)).query.unwrap();
    assert_eq!(query.repo, "unknown");
    assert_eq!(query.file_path, None);
    assert_eq!(query.file_content, None);
}

#[test]
fn completions_leave_the_display() {
    let mut provider = showing("a");
    provider.cycle();
    assert!(provider.current_completion.is_some());
    provider.refresh(true);
    assert!(provider.current_completion.is_none());
    let mut provider = showing("a");
    provider.accept();
    assert!(provider.current_completion.is_none());
    let mut provider = showing("a");
    provider.discard();
    assert!(provider.current_completion.is_none());
}

#[test]
fn what_the_source_says_of_itself() {
    assert_eq!(Provider::name(), "ninetyfive");
    assert_eq!(Provider::display_name(), "NinetyFive");
    assert!(Provider::show_completions_in_menu());
    let provider = Provider::new();
    assert!(!provider.is_refreshing());
    let mut service = NinetyFive::Starting;
    assert!(!provider.is_enabled(&service));
    service.connect(NINETYFIVE_API_URL).unwrap();
    assert!(provider.is_enabled(&service));
}

#[test]
fn failed_requests_fall_back() {
    let provider = Provider::new();
    assert_eq!(provider.fetch_completion(Ok("text".to_string())).unwrap(), "text");
    assert_eq!(provider.fetch_completion(Err(RequestError::TimedOut)).unwrap(), "hello_ninetyfive_fallback");
}

#[test]
fn only_files_are_sent() {
    let provider = Provider::new();
    assert_eq!(
        provider.send_file_content_if_needed(file(vec![]), "text".to_string()),
        Some(("a/b.rs".to_string(), "text".to_string()))
    );
    assert_eq!(provider.send_file_content_if_needed(None, "text".to_string()), None);
}
