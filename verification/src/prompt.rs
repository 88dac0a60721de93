//! The prompts that seed generation: what the player typed, and what is asked
//! of the image service on its behalf.

use crate::imagegen::{ImageGenerationRequest, ImageOutputFormat, ImageSize};
use crate::text::join2;
use vstd::prelude::*;

verus! {

/// The prompt that seeds every job of a session.
#[derive(Debug, Default)]
pub struct GenerationPrompt(pub String);

/// What precedes the player's words in the request for a ground texture.
pub open spec fn ground_lead() -> Seq<char> {
    "a 3mx3m tilable, seamless ground texture for a world described as: "@
}

/// What precedes the player's words in the request for a sky panorama.
pub open spec fn sky_lead() -> Seq<char> {
    "a 360-degree seamless equirectangular sky panorama, 8k resolution, no seams skybox texture for a world described as: "@
}

impl GenerationPrompt {
    /// The words asked of the image service for the ground.
    pub fn ground_prompt(&self) -> (r: String)
        ensures
            r@ == ground_lead() + self.0@,
    {
        join2(
            "a 3mx3m tilable, seamless ground texture for a world described as: ",
            self.0.as_str(),
        )
    }

    /// The words asked of the image service for the sky.
    pub fn sky_prompt(&self) -> (r: String)
        ensures
            r@ == sky_lead() + self.0@,
    {
        join2(
            "a 360-degree seamless equirectangular sky panorama, 8k resolution, no seams skybox texture for a world described as: ",
            self.0.as_str(),
        )
    }

    /// The request for the ground texture: one image of the default size, by URL.
    pub fn ground_request(&self) -> (r: ImageGenerationRequest)
        ensures
            r.prompt@ == ground_lead() + self.0@,
            r.size == ImageSize::Square1024,
            r.output_format == ImageOutputFormat::Url,
            r.image_count == 1,
    {
        ImageGenerationRequest::new(self.ground_prompt()).with_output_format(ImageOutputFormat::Url)
    }

    /// The request for the sky panorama: one image of the default size, by URL.
    pub fn sky_request(&self) -> (r: ImageGenerationRequest)
        ensures
            r.prompt@ == sky_lead() + self.0@,
            r.size == ImageSize::Square1024,
            r.output_format == ImageOutputFormat::Url,
            r.image_count == 1,
    {
        ImageGenerationRequest::new(self.sky_prompt()).with_output_format(ImageOutputFormat::Url)
    }
}

/// Whether `c` is white space: what Unicode lists as such, which is not written
/// out here.
pub uninterp spec fn is_white_space(c: char) -> bool;

/// The number of characters of white space at the start of `s`.
pub open spec fn leading_white_space(s: Seq<char>) -> nat
    decreases s.len(),
{
    if s.len() > 0 && is_white_space(s[0]) {
        1 + leading_white_space(s.skip(1))
    } else {
        0
    }
}

/// The number of characters of white space at the end of `s`.
pub open spec fn trailing_white_space(s: Seq<char>) -> nat
    decreases s.len(),
{
    if s.len() > 0 && is_white_space(s.last()) {
        1 + trailing_white_space(s.drop_last())
    } else {
        0
    }
}

/// `s` without the white space at its start and at its end.
pub open spec fn trimmed(s: Seq<char>) -> Seq<char> {
    let rest = s.skip(leading_white_space(s) as int);
    rest.take(rest.len() - trailing_white_space(rest))
}

/// `str::trim`: the slice without its leading and trailing white space, where
/// white space is what `char::is_whitespace` holds of a character. What is left
/// neither starts nor ends with white space.
#[verifier::external_body]
pub(crate) fn trim(s: &str) -> (r: &str)
    ensures
        r@ == trimmed(s@),
        r@.len() > 0 ==> !is_white_space(r@.first()) && !is_white_space(r@.last()),
{
    s.trim()
}

/// Trimming cuts a run of white space from each end and keeps what lies between.
pub proof fn lemma_trimmed_is_middle(s: Seq<char>)
    ensures
        ({
            let i = leading_white_space(s) as int;
            let rest = s.skip(i);
            let j = s.len() - trailing_white_space(rest);
            &&& 0 <= i <= j <= s.len()
            &&& trimmed(s) == s.subrange(i, j)
            &&& forall|k: int| 0 <= k < i ==> is_white_space(#[trigger] s[k])
            &&& forall|k: int| j <= k < s.len() ==> is_white_space(#[trigger] s[k])
            &&& i < j ==> !is_white_space(s[i]) && !is_white_space(s[j - 1])
        }),
{
    let i = leading_white_space(s) as int;
    lemma_leading(s);
    let rest = s.skip(i);
    lemma_trailing(rest);
    let t = trailing_white_space(rest) as int;
    let j = s.len() - t;
    assert(rest.take(rest.len() - t) =~= s.subrange(i, j));
    assert forall|k: int| j <= k < s.len() implies is_white_space(#[trigger] s[k]) by {
        assert(rest[k - i] == s[k]);
    }
    if i < j {
        assert(rest[0] == s[i]);
        assert(rest[rest.len() - t - 1] == s[j - 1]);
    }
}

proof fn lemma_leading(s: Seq<char>)
    ensures
        leading_white_space(s) <= s.len(),
        forall|k: int| 0 <= k < leading_white_space(s) ==> is_white_space(#[trigger] s[k]),
        leading_white_space(s) < s.len() ==> !is_white_space(s[leading_white_space(s) as int]),
    decreases s.len(),
{
    if s.len() > 0 && is_white_space(s[0]) {
        let rest = s.skip(1);
        lemma_leading(rest);
        assert forall|k: int| 0 <= k < leading_white_space(s) implies is_white_space(
            #[trigger] s[k],
        ) by {
            if k > 0 {
                assert(rest[k - 1] == s[k]);
            }
        }
        if leading_white_space(s) < s.len() {
            assert(rest[leading_white_space(rest) as int] == s[leading_white_space(s) as int]);
        }
    }
}

proof fn lemma_trailing(s: Seq<char>)
    ensures
        trailing_white_space(s) <= s.len(),
        forall|k: int|
            s.len() - trailing_white_space(s) <= k < s.len() ==> is_white_space(#[trigger] s[k]),
        trailing_white_space(s) < s.len() ==> !is_white_space(
            s[s.len() - trailing_white_space(s) - 1],
        ),
    decreases s.len(),
{
    if s.len() > 0 && is_white_space(s.last()) {
        let rest = s.drop_last();
        lemma_trailing(rest);
        assert forall|k: int|
            s.len() - trailing_white_space(s) <= k < s.len() implies is_white_space(
            #[trigger] s[k],
        ) by {
            if k < s.len() - 1 {
                assert(rest[k] == s[k]);
            }
        }
        if trailing_white_space(s) < s.len() {
            assert(rest[rest.len() - trailing_white_space(rest) - 1] == s[s.len()
                - trailing_white_space(s) - 1]);
        }
    }
}

/// Whether place `i` holds the first of `texts` that is not empty.
pub open spec fn is_first_with_content(texts: Seq<String>, i: int) -> bool {
    &&& 0 <= i < texts.len()
    &&& texts[i]@.len() > 0
    &&& forall|j: int| 0 <= j < i ==> (#[trigger] texts[j])@.len() == 0
}

/// The place of the first of `texts` that is not empty.
pub fn first_with_content(texts: &Vec<String>) -> (r: Option<usize>)
    ensures
        match r {
            Some(i) => is_first_with_content(texts@, i as int),
            None => forall|j: int| 0 <= j < texts@.len() ==> (#[trigger] texts@[j])@.len() == 0,
        },
{
    let mut i: usize = 0;
    while i < texts.len()
        invariant
            i <= texts@.len(),
            forall|j: int| 0 <= j < i ==> (#[trigger] texts@[j])@.len() == 0,
        decreases texts@.len() - i,
    {
        if !texts[i].as_str().is_empty() {
            return Some(i);
        }
        i += 1;
    }
    None
}

/// Whether `trimmed_texts` holds each of `submissions` without the white space at
/// its ends.
pub open spec fn are_trimmed(trimmed_texts: Seq<String>, submissions: Seq<String>) -> bool {
    &&& trimmed_texts.len() == submissions.len()
    &&& forall|i: int|
        0 <= i < submissions.len() ==> (#[trigger] trimmed_texts[i])@ == trimmed(submissions[i]@)
}

/// Each of `submissions` without the white space at its ends.
pub fn trim_all(submissions: &Vec<String>) -> (r: Vec<String>)
    ensures
        are_trimmed(r@, submissions@),
{
    let mut texts: Vec<String> = Vec::new();
    let mut i: usize = 0;
    while i < submissions.len()
        invariant
            i <= submissions@.len(),
            texts@.len() == i,
            forall|j: int| 0 <= j < i ==> (#[trigger] texts@[j])@ == trimmed(submissions@[j]@),
        decreases submissions@.len() - i,
    {
        texts.push(trim(submissions[i].as_str()).to_owned());
        i += 1;
    }
    texts
}

/// Whether `text` is, without the white space at its ends, the first of
/// `submissions` that holds more than white space, which stands at place `i`.
pub open spec fn is_first_prompt(submissions: Seq<String>, i: int, text: Seq<char>) -> bool {
    &&& 0 <= i < submissions.len()
    &&& text == trimmed(submissions[i]@)
    &&& text.len() > 0
    &&& forall|j: int| 0 <= j < i ==> trimmed(#[trigger] submissions[j]@).len() == 0
}

/// Picks the prompt to generate a prop for among the texts submitted in one
/// tick: the first that holds more than white space, without the white space at
/// its ends. While the prompt overlay is closed, submissions are passed over.
pub fn first_submitted_prompt(overlay_open: bool, submissions: &Vec<String>) -> (r: Option<String>)
    ensures
        r is Some ==> overlay_open,
        r matches Some(prompt) ==> exists|i: int| #[trigger]
            is_first_prompt(submissions@, i, prompt@),
        r is None && overlay_open ==> forall|i: int|
            0 <= i < submissions@.len() ==> trimmed(#[trigger] submissions@[i]@).len() == 0,
{
    if !overlay_open {
        return None;
    }
    let texts = trim_all(submissions);
    match first_with_content(&texts) {
        Some(i) => {
            let prompt = texts[i].clone();
            proof {
                assert forall|j: int| 0 <= j < i implies trimmed(
                    #[trigger] submissions@[j]@,
                ).len() == 0 by {
                    assert(texts@[j]@.len() == 0);
                }
            }
            let chosen = Some(prompt);
            assert(is_first_prompt(submissions@, i as int, chosen->0@));
            chosen
        },
        None => {
            assert forall|i: int| 0 <= i < submissions@.len() implies trimmed(
                #[trigger] submissions@[i]@,
            ).len() == 0 by {
                assert(texts@[i]@.len() == 0);
            }
            None
        },
    }
}

/// What the overlay for prop prompts has changed in the game while it is open.
#[derive(Debug, Default)]
pub struct ModelPromptUiState {
    /// The engine's name for the overlay, while it is open.
    pub root: Option<u64>,
    /// Whether opening the overlay paused the game.
    pub paused_game: bool,
    /// Whether opening the overlay blocked the player's input.
    pub blocked_input: bool,
}

/// What is to be undone when the overlay closes.
#[derive(Debug, PartialEq, Eq)]
pub struct OverlayClosing {
    /// The overlay to remove, if one was open.
    pub remove: Option<u64>,
    /// Whether the game is to run again.
    pub unpause: bool,
    /// Whether the player's input is to be let through again.
    pub unblock: bool,
}

impl ModelPromptUiState {
    /// Whether the overlay is open.
    pub open spec fn is_open_spec(&self) -> bool {
        self.root is Some
    }

    /// Whether the overlay is open.
    pub fn is_open(&self) -> (r: bool)
        ensures
            r == self.is_open_spec(),
    {
        self.root.is_some()
    }

    /// Opens the overlay as `root`, unless it is open already. `was_paused` says
    /// whether the game was paused before, `newly_blocked` whether the overlay is
    /// the first to block the player's input. Says whether the game is to be
    /// paused now.
    pub fn open(&mut self, root: u64, was_paused: bool, newly_blocked: bool) -> (pause: bool)
        ensures
            old(self).is_open_spec() ==> *final(self) == *old(self) && !pause,
            !old(self).is_open_spec() ==> {
                &&& final(self).root == Some(root)
                &&& final(self).paused_game == !was_paused
                &&& final(self).blocked_input == newly_blocked
                &&& pause == !was_paused
            },
    {
        if self.root.is_some() {
            return false;
        }
        self.root = Some(root);
        self.paused_game = !was_paused;
        self.blocked_input = newly_blocked;
        !was_paused
    }

    /// Closes the overlay and says what is to be undone: exactly what opening it
    /// had done. Closing a closed overlay undoes nothing.
    pub fn close(&mut self) -> (r: OverlayClosing)
        ensures
            r.remove == old(self).root,
            r.unpause == old(self).paused_game,
            r.unblock == old(self).blocked_input,
            final(self).root is None,
            !final(self).paused_game,
            !final(self).blocked_input,
    {
        let closing = OverlayClosing {
            remove: self.root,
            unpause: self.paused_game,
            unblock: self.blocked_input,
        };
        self.root = None;
        self.paused_game = false;
        self.blocked_input = false;
        closing
    }
}

} // verus!
