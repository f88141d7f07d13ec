//! What the editor asks of a source of completions.

use crate::anchor::Anchor;
use crate::client::RequestError;
use crate::interpolate;
use crate::interpolate::UserEdit;
use crate::message::UNKNOWN_REPO;
use crate::ninetyfive::NinetyFive;
use std::ops::Range;
use vstd::prelude::*;

verus! {

/// The answer where a request failed.
pub const FALLBACK: &'static str = "hello_ninetyfive_fallback";

/// What is shown while there is no completion.
pub const PLACEHOLDER: &'static str = "hello_ws_friend";

/// A completion that is on display, with the snapshot of the buffer that it was made for and the
/// editor's preview of it. Both are the editor's own, of the types `S` and `P`.
#[derive(Debug)]
pub struct CurrentCompletion<S, P> {
    pub snapshot: S,
    pub edits: Vec<(Range<Anchor>, String)>,
    pub edit_preview: P,
}

impl<S, P> CurrentCompletion<S, P> {
    /// What the completion becomes after some edits, where `cursor` is where it went in its
    /// snapshot.
    pub fn interpolate(&self, cursor: usize, edits: &Vec<UserEdit>) -> (result: Option<Vec<(Range<Anchor>, String)>>)
        ensures
            interpolate::interpolates(self.edits@, cursor, edits@, result),
            result is Some <==> interpolate::survives(self.edits@, cursor, edits@),
    {
        interpolate::interpolate(&self.edits, cursor, edits)
    }
}

/// A directory that a file lies in.
#[derive(Debug)]
pub struct Ancestor {
    /// Its last component, where it has one.
    pub name: Option<String>,
    /// Whether it is the root of a repository.
    pub has_git: bool,
}

/// The file of a buffer: its path, and the path itself and the directories above it, from the
/// inside to the outside.
#[derive(Debug)]
pub struct BufferFile {
    pub path: String,
    pub ancestors: Vec<Ancestor>,
}

/// A completion for the editor to show.
#[derive(Debug)]
pub struct EditPrediction<'a, P> {
    pub id: Option<String>,
    pub edits: Vec<(Range<Anchor>, String)>,
    pub edit_preview: Option<&'a P>,
}

/// A completion to ask the service for.
#[derive(Debug)]
pub struct CompletionQuery {
    pub pos: usize,
    pub repo: String,
    pub file_path: Option<String>,
    pub file_content: Option<String>,
}

/// What to show now, and what to ask for meanwhile.
#[derive(Debug)]
pub struct Suggestion<'a, P> {
    pub prediction: EditPrediction<'a, P>,
    pub query: Option<CompletionQuery>,
}

/// The name of the innermost repository that a path lies in, or that of an unknown one.
pub open spec fn repo_of(ancestors: Seq<Ancestor>) -> Seq<char>
    decreases ancestors.len(),
{
    if ancestors.len() == 0 {
        UNKNOWN_REPO@
    } else if ancestors[0].has_git {
        match ancestors[0].name {
            Some(name) => name@,
            None => UNKNOWN_REPO@,
        }
    } else {
        repo_of(ancestors.drop_first())
    }
}

/// The name of the repository of a buffer.
pub open spec fn repo_of_file(file: Option<BufferFile>) -> Seq<char> {
    match file {
        Some(file) => repo_of(file.ancestors@),
        None => UNKNOWN_REPO@,
    }
}

/// The name of the innermost of these directories that is the root of a repository, or that of an
/// unknown one.
fn repo_among(ancestors: &Vec<Ancestor>) -> (name: String)
    ensures
        name@ == repo_of(ancestors@),
{
    let mut i: usize = 0;
    assert(ancestors@.skip(0) == ancestors@);
    while i < ancestors.len()
        invariant
            i <= ancestors.len(),
            repo_of(ancestors@) == repo_of(ancestors@.skip(i as int)),
        decreases ancestors.len() - i,
    {
        assert(ancestors@.skip(i as int)[0] == ancestors@[i as int]);
        if ancestors[i].has_git {
            return match &ancestors[i].name {
                Some(name) => name.clone(),
                None => UNKNOWN_REPO.to_owned(),
            };
        }
        assert(ancestors@.skip(i as int).drop_first() == ancestors@.skip(i + 1));
        i += 1;
    }
    UNKNOWN_REPO.to_owned()
}

/// The name of the repository of a buffer.
pub fn repo_name(file: &Option<BufferFile>) -> (name: String)
    ensures
        name@ == repo_of_file(*file),
        file is None ==> name@ == "unknown"@,
{
    match file {
        Some(file) => repo_among(&file.ancestors),
        None => UNKNOWN_REPO.to_owned(),
    }
}

/// The source of completions.
#[derive(Debug)]
pub struct NinetyFiveCompletionProvider<S, P> {
    pub current_completion: Option<CurrentCompletion<S, P>>,
}

/// Whether a prediction is the placeholder at this place.
pub open spec fn is_placeholder<P>(prediction: EditPrediction<P>, position: Anchor) -> bool {
    &&& prediction.id is None
    &&& prediction.edits@.len() == 1
    &&& prediction.edits@[0].0.start == position
    &&& prediction.edits@[0].0.end == position
    &&& prediction.edits@[0].1@ == PLACEHOLDER@
    &&& prediction.edit_preview is None
}

impl<S, P> NinetyFiveCompletionProvider<S, P> {
    /// A source that has nothing on display.
    pub fn new() -> (provider: Self)
        ensures
            provider.current_completion is None,
    {
        NinetyFiveCompletionProvider { current_completion: None }
    }

    /// What the source is called in the settings.
    pub fn name() -> (name: &'static str)
        ensures
            name@ == "ninetyfive"@,
    {
        "ninetyfive"
    }

    /// What the source is called for the user.
    pub fn display_name() -> (name: &'static str)
        ensures
            name@ == "NinetyFive"@,
    {
        "NinetyFive"
    }

    pub fn show_completions_in_menu() -> (shown: bool)
        ensures
            shown,
    {
        true
    }

    /// Whether completions can be asked for.
    pub fn is_enabled(&self, ninetyfive: &NinetyFive) -> (enabled: bool)
        ensures
            enabled == (ninetyfive is Connected),
    {
        ninetyfive.is_enabled()
    }

    pub fn is_refreshing(&self) -> (refreshing: bool)
        ensures
            !refreshing,
    {
        false
    }

    /// Takes the completion off display, so that a new one is asked for.
    pub fn refresh(&mut self, debounce: bool)
        ensures
            final(self).current_completion is None,
    {
        self.current_completion = None;
    }

    /// There is only ever one completion to choose from.
    pub fn cycle(&mut self)
        ensures
            *final(self) == *old(self),
    {
    }

    /// The user took the completion.
    pub fn accept(&mut self)
        ensures
            final(self).current_completion is None,
    {
        self.current_completion = None;
    }

    /// The user does not want the completion.
    pub fn discard(&mut self)
        ensures
            final(self).current_completion is None,
    {
        self.current_completion = None;
    }

    /// The content of a buffer for the service, with the path of its file. A buffer without a file
    /// has none.
    pub fn send_file_content_if_needed(&self, file: Option<BufferFile>, content: String) -> (sent: Option<
        (String, String),
    >)
        ensures
            sent == match file {
                Some(file) => Some((file.path, content)),
                None => None,
            },
    {
        match file {
            Some(file) => Some((file.path, content)),
            None => None,
        }
    }

    /// The completion that a request came back with, or a fallback where it failed.
    pub fn fetch_completion(&self, outcome: Result<String, RequestError>) -> (completion: Result<String, RequestError>)
        ensures
            completion matches Ok(text) && text@ == match outcome {
                Ok(text) => text@,
                Err(_) => FALLBACK@,
            },
    {
        match outcome {
            Ok(completion) => Ok(completion),
            Err(_) => Ok(FALLBACK.to_owned()),
        }
    }

    /// What to show in a buffer: the completion on display, where it survived the edits made since
    /// (`completion_cursor` is where it went in its snapshot), or else a placeholder at
    /// `position`, with a query for the completion at `cursor_offset`.
    pub fn suggest(
        &self,
        completion_cursor: usize,
        edits: &Vec<UserEdit>,
        file: Option<BufferFile>,
        content: String,
        cursor_offset: usize,
        position: Anchor,
    ) -> (suggestion: Suggestion<'_, P>)
        ensures
            suggestion.prediction.edits@.len() == 1,
            match self.current_completion {
                Some(current) if interpolate::survives(current.edits@, completion_cursor, edits@) => {
                    &&& suggestion.prediction.id is None
                    &&& interpolate::interpolates(
                        current.edits@,
                        completion_cursor,
                        edits@,
                        Some(suggestion.prediction.edits),
                    )
                    &&& suggestion.prediction.edit_preview == Some(&current.edit_preview)
                    &&& suggestion.query is None
                },
                _ => {
                    &&& is_placeholder(suggestion.prediction, position)
                    &&& suggestion.query matches Some(query)
                    &&& query.pos == cursor_offset
                    &&& query.repo@ == repo_of_file(file)
                    &&& match file {
                        Some(file) => query.file_path == Some(file.path) && query.file_content == Some(content),
                        None => query.file_path is None && query.file_content is None,
                    }
                },
            },
    {
        if let Some(current) = &self.current_completion {
            if let Some(edits) = current.interpolate(completion_cursor, edits) {
                if !edits.is_empty() {
                    return Suggestion {
                        prediction: EditPrediction { id: None, edits, edit_preview: Some(&current.edit_preview) },
                        query: None,
                    };
                }
            }
        }
        let repo = repo_name(&file);
        let (file_path, file_content) = match file {
            Some(file) => (Some(file.path), Some(content)),
            None => (None, None),
        };
        let mut placeholder: Vec<(Range<Anchor>, String)> = Vec::new();
        placeholder.push((Range { start: position, end: position }, PLACEHOLDER.to_owned()));
        Suggestion {
            prediction: EditPrediction { id: None, edits: placeholder, edit_preview: None },
            query: Some(CompletionQuery { pos: cursor_offset, repo, file_path, file_content }),
        }
    }
}

/// The repository is the innermost directory that is the root of one, however far out that is; it
/// goes by the name of the directory, or counts as unknown where that has none. Without such a
/// directory the repository is unknown.
pub proof fn law_innermost_root_names_the_repository(ancestors: Seq<Ancestor>, k: int)
    requires
        0 <= k <= ancestors.len(),
        forall|j: int| 0 <= j < k ==> !(#[trigger] ancestors[j]).has_git,
    ensures
        k == ancestors.len() ==> repo_of(ancestors) == "unknown"@,
        k < ancestors.len() && ancestors[k].has_git ==> match ancestors[k].name {
            Some(name) => repo_of(ancestors) == name@,
            None => repo_of(ancestors) == "unknown"@,
        },
    decreases k,
{
    if k > 0 {
        let outer = ancestors.drop_first();
        assert(!ancestors[0].has_git);
        assert forall|j: int| 0 <= j < k - 1 implies !(#[trigger] outer[j]).has_git by {
            assert(outer[j] == ancestors[j + 1]);
        }
        law_innermost_root_names_the_repository(outer, k - 1);
    }
}

/// A buffer's repository is that of its file; a buffer without a file has an unknown one.
pub proof fn law_repository_of_a_buffer(file: Option<BufferFile>, k: int)
    requires
        file matches Some(file) ==> {
            &&& 0 <= k <= file.ancestors@.len()
            &&& forall|j: int| 0 <= j < k ==> !(#[trigger] file.ancestors@[j]).has_git
        },
    ensures
        match file {
            Some(file) => {
                &&& k == file.ancestors@.len() ==> repo_of_file(Some(file)) == "unknown"@
                &&& k < file.ancestors@.len() && file.ancestors@[k].has_git ==> match file.ancestors@[k].name {
                    Some(name) => repo_of_file(Some(file)) == name@,
                    None => repo_of_file(Some(file)) == "unknown"@,
                }
            },
            None => repo_of_file(file) == "unknown"@,
        },
{
    if let Some(file) = file {
        law_innermost_root_names_the_repository(file.ancestors@, k);
    }
}

/// The placeholder is one insertion of a fixed text at the place asked for, with no preview.
pub proof fn law_placeholder_is_one_insertion<P>(prediction: EditPrediction<P>, position: Anchor)
    requires
        is_placeholder(prediction, position),
    ensures
        prediction.id is None,
        prediction.edit_preview is None,
        prediction.edits@.len() == 1,
        prediction.edits@[0].0.start == position,
        prediction.edits@[0].0.end == position,
        prediction.edits@[0].1@ == "hello_ws_friend"@,
{
}

} // verus!
