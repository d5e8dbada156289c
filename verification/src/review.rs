//! Reviews of code changes.
use crate::error::{invalid_request, refused_by, RpcError, INVALID_REQUEST};
use crate::path::{joined_path, one_component, path_text, AbsolutePath};
use crate::text::{debug_text, option_text, plus3, quoted, trim, trimmed, trimmed_is_tight};
use crate::turn::{input_too_large_error, is_too_large};
use vstd::prelude::*;
use vstd::string::*;

verus! {

/// What is reviewed.
#[derive(Debug)]
pub enum ReviewTarget {
    UncommittedChanges,
    BaseBranch { branch: String },
    Commit { sha: String, title: Option<String> },
    Custom { instructions: String },
}

/// Why a target is rejected.
pub open spec fn target_refusal(target: ReviewTarget) -> Option<Seq<char>> {
    match target {
        ReviewTarget::UncommittedChanges => None,
        ReviewTarget::BaseBranch { branch } => if trimmed(branch@).len() == 0 {
            Some("branch must not be empty"@)
        } else {
            None
        },
        ReviewTarget::Commit { sha, title } => if trimmed(sha@).len() == 0 {
            Some("sha must not be empty"@)
        } else {
            None
        },
        ReviewTarget::Custom { instructions } => if trimmed(instructions@).len() == 0 {
            Some("instructions must not be empty"@)
        } else {
            None
        },
    }
}

/// A title without the white space around it, where anything is left.
pub open spec fn clean_title(title: Option<Seq<char>>) -> Option<Seq<char>> {
    match title {
        Some(text) => if trimmed(text).len() == 0 {
            None
        } else {
            Some(trimmed(text))
        },
        None => None,
    }
}

/// Whether a target is another one without the white space around its texts.
pub open spec fn is_cleaned(cleaned: ReviewTarget, target: ReviewTarget) -> bool {
    match target {
        ReviewTarget::UncommittedChanges => cleaned is UncommittedChanges,
        ReviewTarget::BaseBranch { branch } => cleaned matches ReviewTarget::BaseBranch {
            branch: clean,
        } && clean@ == trimmed(branch@),
        ReviewTarget::Commit { sha, title } => cleaned matches ReviewTarget::Commit {
            sha: clean,
            title: clean_name,
        } && clean@ == trimmed(sha@) && option_text(clean_name) == clean_title(
            option_text(title),
        ),
        ReviewTarget::Custom { instructions } => cleaned matches ReviewTarget::Custom {
            instructions: clean,
        } && clean@ == trimmed(instructions@),
    }
}

/// Takes the white space off a target and rejects one that says nothing.
pub fn clean_review_target(target: ReviewTarget) -> (res: Result<ReviewTarget, RpcError>)
    ensures
        refused_by(res, target_refusal(target)),
        res matches Ok(cleaned) ==> is_cleaned(cleaned, target),
{
    match target {
        ReviewTarget::UncommittedChanges => Ok(ReviewTarget::UncommittedChanges),
        ReviewTarget::BaseBranch { branch } => {
            let branch = trim(branch.as_str());
            if branch.as_str().is_empty() {
                return Err(invalid_request("branch must not be empty"));
            }
            Ok(ReviewTarget::BaseBranch { branch })
        },
        ReviewTarget::Commit { sha, title } => {
            let sha = trim(sha.as_str());
            if sha.as_str().is_empty() {
                return Err(invalid_request("sha must not be empty"));
            }
            let title = match title {
                Some(title) => {
                    let title = trim(title.as_str());
                    if title.as_str().is_empty() {
                        None
                    } else {
                        Some(title)
                    }
                },
                None => None,
            };
            Ok(ReviewTarget::Commit { sha, title })
        },
        ReviewTarget::Custom { instructions } => {
            let instructions = trim(instructions.as_str());
            if instructions.as_str().is_empty() {
                return Err(invalid_request("instructions must not be empty"));
            }
            Ok(ReviewTarget::Custom { instructions })
        },
    }
}

/// What is asked of the model.
pub open spec fn target_prompt(target: ReviewTarget) -> Seq<char> {
    match target {
        ReviewTarget::UncommittedChanges => {
            "Review the current code changes (staged, unstaged, and untracked files)."@
        },
        ReviewTarget::BaseBranch { branch } => {
            "Review the code changes against the base branch "@ + quoted(branch@) + "."@
        },
        ReviewTarget::Commit { sha, title } => {
            "Review the changes introduced by commit "@ + quoted(sha@) + "."@
        },
        ReviewTarget::Custom { instructions } => instructions@,
    }
}

pub fn review_target_prompt(target: &ReviewTarget) -> (res: String)
    ensures
        res@ == target_prompt(*target),
{
    match target {
        ReviewTarget::UncommittedChanges => {
            "Review the current code changes (staged, unstaged, and untracked files).".to_owned()
        },
        ReviewTarget::BaseBranch { branch } => plus3(
            "Review the code changes against the base branch ",
            debug_text(branch.as_str()).as_str(),
            ".",
        ),
        ReviewTarget::Commit { sha, title: _ } => plus3(
            "Review the changes introduced by commit ",
            debug_text(sha.as_str()).as_str(),
            ".",
        ),
        ReviewTarget::Custom { instructions } => instructions.clone(),
    }
}

/// Where the turn of a review runs.
#[derive(Clone, Copy, Debug, PartialEq, Eq, Structural)]
pub enum ReviewDelivery {
    /// In the thread that asked for it.
    Inline,
    /// In a thread of its own.
    Detached,
}

/// What a client is told of something that will go away.
#[derive(Debug)]
pub struct DeprecationNotice {
    pub summary: String,
    pub details: Option<String>,
}

/// Whether a client that asks for this is told so.
pub open spec fn is_notice(
    delivery: Option<ReviewDelivery>,
    res: Option<DeprecationNotice>,
) -> bool {
    &&& res is Some <==> delivery == Some(ReviewDelivery::Detached)
    &&& res matches Some(notice) ==> {
        &&& notice.summary@
            == "review/start with delivery \"detached\" is deprecated and will be removed in a future release."@
        &&& option_text(notice.details) == Some(
            "Use thread/start followed by review/start with delivery \"inline\" for a separate review thread, or thread/fork followed by turn/start with your own review instructions."@,
        )
    }
}

/// What a client that asks for a review is told beforehand: that detached reviews will go away. A
/// review without a delivery is not detached.
pub fn review_notice(delivery: Option<ReviewDelivery>) -> (res: Option<DeprecationNotice>)
    ensures
        is_notice(delivery, res),
{
    match delivery {
        Some(ReviewDelivery::Detached) => Some(
            DeprecationNotice {
                summary:
                    "review/start with delivery \"detached\" is deprecated and will be removed in a future release.".to_owned(),
                details: Some(
                    "Use thread/start followed by review/start with delivery \"inline\" for a separate review thread, or thread/fork followed by turn/start with your own review instructions.".to_owned(),
                ),
            },
        ),
        _ => None,
    }
}

/// What a separate review agent is started with.
pub open spec fn detached_prompt(skills: Seq<Seq<char>>, prompt: Seq<char>) -> Seq<char> {
    "Use [$review-agent]("@ + path_text(
        joined_path(joined_path(skills, "review-agent"@), "SKILL.md"@),
    ) + ") for this review.\n\n"@ + prompt
}

/// Whether a detached review starts with this, or is refused.
pub open spec fn is_detached_review(
    skills: Seq<Seq<char>>,
    target: ReviewTarget,
    limit: usize,
    paginated: bool,
    res: Result<String, RpcError>,
) -> bool {
    let prompt = detached_prompt(skills, target_prompt(target));
    if prompt.len() > limit {
        res matches Err(error) && is_too_large(error, limit, prompt.len())
    } else if paginated {
        res matches Err(error) && error.is(
            INVALID_REQUEST,
            "paginated threads do not support detached review"@,
        )
    } else {
        res matches Ok(text) && text@ == prompt
    }
}

/// The prompt of a detached review, if it is not too long and the thread's whole history can be
/// handed over. `skills` is the directory of the built-in skills.
pub fn detached_review_prompt(
    skills: &AbsolutePath,
    target: &ReviewTarget,
    limit: usize,
    paginated: bool,
) -> (res: Result<String, RpcError>)
    ensures
        is_detached_review(skills@, *target, limit, paginated, res),
{
    let path = skills.join("review-agent").join("SKILL.md").text();
    let mut prompt = plus3("Use [$review-agent](", path.as_str(), ") for this review.\n\n");
    prompt.append(review_target_prompt(target).as_str());
    let actual: usize = prompt.as_str().unicode_len();
    if actual > limit {
        return Err(input_too_large_error(limit, actual));
    }
    if paginated {
        return Err(invalid_request("paginated threads do not support detached review"));
    }
    Ok(prompt)
}

/// The model that reviews.
pub open spec fn reviewing_model(configured: Option<String>, model: Option<String>) -> Option<
    String,
> {
    if configured is Some {
        configured
    } else {
        model
    }
}

/// The model of a detached review: the one for reviews where one is configured.
pub fn review_model(configured: Option<String>, model: Option<String>) -> (res: Option<String>)
    ensures
        res == reviewing_model(configured, model),
{
    match configured {
        Some(model) => Some(model),
        None => model,
    }
}

/// A turn that has just begun.
#[derive(Debug)]
pub struct ReviewTurn {
    pub id: String,
    /// The user message that the turn shows, if it shows one; it has the turn's identity.
    pub message: Option<String>,
}

/// Whether a review request is answered with this turn.
pub open spec fn is_review_turn(
    turn_id: Seq<char>,
    display_text: Seq<char>,
    turn: ReviewTurn,
) -> bool {
    &&& turn.id@ == turn_id
    &&& option_text(turn.message) == if display_text.len() == 0 {
        None
    } else {
        Some(display_text)
    }
}

/// The turn that answers a review request; a request without a text shows no message.
pub fn build_review_turn(turn_id: String, display_text: &str) -> (res: ReviewTurn)
    ensures
        is_review_turn(turn_id@, display_text@, res),
{
    let message = if display_text.is_empty() {
        None
    } else {
        Some(display_text.to_owned())
    };
    ReviewTurn { id: turn_id, message }
}

/// A target is rejected exactly where the text that it must have says nothing; one that is accepted
/// stays accepted once the white space was taken off, and nothing more is taken off then.
pub proof fn cleaning_is_done_once(
    target: ReviewTarget,
    cleaned: ReviewTarget,
    again: ReviewTarget,
)
    requires
        target_refusal(target) is None,
        is_cleaned(cleaned, target),
        is_cleaned(again, cleaned),
    ensures
        target_refusal(cleaned) is None,
        target is UncommittedChanges <==> cleaned is UncommittedChanges,
        target matches ReviewTarget::BaseBranch { branch } ==> trimmed(branch@).len() > 0 && (cleaned
            matches ReviewTarget::BaseBranch { branch: clean } && clean@ == trimmed(branch@)) && (
        again matches ReviewTarget::BaseBranch { branch: last } && last@ == trimmed(branch@)),
        target matches ReviewTarget::Commit { sha, title } ==> trimmed(sha@).len() > 0 && (cleaned
            matches ReviewTarget::Commit { sha: clean, title: name } && clean@ == trimmed(sha@) && (
        name is Some <==> title is Some && trimmed(title->Some_0@).len() > 0) && (name is Some
            ==> name->Some_0@ == trimmed(title->Some_0@))) && (again matches ReviewTarget::Commit {
            sha: last,
            title: last_name,
        } && last@ == trimmed(sha@)),
        target matches ReviewTarget::Custom { instructions } ==> trimmed(instructions@).len() > 0
            && (cleaned matches ReviewTarget::Custom { instructions: clean } && clean@ == trimmed(
            instructions@,
        )),
{
    match target {
        ReviewTarget::UncommittedChanges => {},
        ReviewTarget::BaseBranch { branch } => {
            trimmed_is_tight(branch@);
        },
        ReviewTarget::Commit { sha, title } => {
            trimmed_is_tight(sha@);
        },
        ReviewTarget::Custom { instructions } => {
            trimmed_is_tight(instructions@);
        },
    }
}

/// The model is asked for what was named: the branch, the commit, or the user's own words.
pub proof fn prompt_names_the_target(target: ReviewTarget)
    ensures
        target matches ReviewTarget::BaseBranch { branch } ==> target_prompt(target)
            == "Review the code changes against the base branch "@ + quoted(branch@) + "."@,
        target matches ReviewTarget::Commit { sha, title } ==> target_prompt(target)
            == "Review the changes introduced by commit "@ + quoted(sha@) + "."@,
        target matches ReviewTarget::Custom { instructions } ==> target_prompt(target)
            == instructions@,
        target is UncommittedChanges ==> target_prompt(target)
            == "Review the current code changes (staged, unstaged, and untracked files)."@,
{
}

/// A detached review points to the review skill and ends with what is asked; it is started exactly
/// where that is not too long and the thread's history can be handed over.
pub proof fn detached_review_asks_for_the_target(
    skills: Seq<Seq<char>>,
    target: ReviewTarget,
    limit: usize,
    paginated: bool,
    res: Result<String, RpcError>,
)
    requires
        is_detached_review(skills, target, limit, paginated, res),
    ensures
        ({
            let asked = target_prompt(target);
            let skill = path_text(skills.push("review-agent"@).push("SKILL.md"@));
            let prompt = "Use [$review-agent]("@ + skill + ") for this review.\n\n"@ + asked;
            &&& res is Ok <==> prompt.len() <= limit && !paginated
            &&& res matches Ok(text) ==> text@ == prompt
        }),
{
    reveal_strlit("review-agent");
    reveal_strlit("SKILL.md");
    reveal_strlit(".");
    one_component("review-agent"@);
    one_component("SKILL.md"@);
    assert(joined_path(joined_path(skills, "review-agent"@), "SKILL.md"@) =~= skills.push(
        "review-agent"@,
    ).push("SKILL.md"@));
}

/// Only a client that asks for a detached review is told that it will go away. Reviews use the model
/// that is configured for them, and else the thread's. The turn of a review has its own identity and
/// shows the text that there is.
pub proof fn review_is_announced(
    delivery: Option<ReviewDelivery>,
    notice: Option<DeprecationNotice>,
    configured: Option<String>,
    model: Option<String>,
    turn_id: Seq<char>,
    display_text: Seq<char>,
    turn: ReviewTurn,
)
    requires
        is_notice(delivery, notice),
        is_review_turn(turn_id, display_text, turn),
    ensures
        delivery is None || delivery == Some(ReviewDelivery::Inline) ==> notice is None,
        delivery == Some(ReviewDelivery::Detached) ==> notice is Some
            && notice->Some_0.details is Some && notice->Some_0.summary@
            == "review/start with delivery \"detached\" is deprecated and will be removed in a future release."@,
        configured is Some ==> reviewing_model(configured, model) == configured,
        configured is None ==> reviewing_model(configured, model) == model,
        turn.id@ == turn_id,
        turn.message is Some <==> display_text.len() > 0,
        turn.message matches Some(message) ==> message@ == display_text,
{
}

/// A target is rejected exactly where what it names is blank, and the rejection says which part is.
pub proof fn blank_target_is_rejected(text: String, title: Option<String>)
    ensures
        target_refusal(ReviewTarget::UncommittedChanges) is None,
        target_refusal(ReviewTarget::BaseBranch { branch: text }) == if trimmed(text@).len() == 0 {
            Some("branch must not be empty"@)
        } else {
            None
        },
        target_refusal(ReviewTarget::Commit { sha: text, title }) == if trimmed(text@).len() == 0 {
            Some("sha must not be empty"@)
        } else {
            None
        },
        target_refusal(ReviewTarget::Custom { instructions: text }) == if trimmed(text@).len() == 0 {
            Some("instructions must not be empty"@)
        } else {
            None
        },
{
}

} // verus!
