//! New category tags.

use crate::calendar::{current_time, Timestamp};
use crate::error::{ErrorView, LedgerError};
use crate::ident::{fresh_id, is_hyphenated_id};
use crate::model::{Tag, TagView};
use crate::params::{CreateTagParams, CreateTagView};
use crate::text::{lowercase_text, lowercased, trim_text, trimmed};
use vstd::prelude::*;

verus! {

/// The form under which two titles count as one: without the white space
/// around the title, in lower case.
pub open spec fn title_key(title: Seq<char>) -> Seq<char> {
    lowercased(trimmed(title))
}

/// Accepts a title that has been trimmed already, unless nothing is left of
/// it.
pub fn accept_title(rest: &str) -> (accepted: Result<String, LedgerError>)
    ensures
        if rest@.len() == 0 {
            accepted matches Err(error) && error@ == ErrorView::BlankTitle
        } else {
            accepted matches Ok(title) && title@ == rest@
        },
{
    if rest.is_empty() {
        Err(LedgerError::BlankTitle)
    } else {
        Ok(rest.to_owned())
    }
}

/// The title of a new tag without the white space around it. A title of
/// which nothing is left is refused.
pub fn normalize_tag_title(title: &str) -> (normalized: Result<String, LedgerError>)
    ensures
        if trimmed(title@).len() == 0 {
            normalized matches Err(error) && error@ == ErrorView::BlankTitle
        } else {
            normalized matches Ok(rest) && rest@ == trimmed(title@)
        },
{
    accept_title(trim_text(title))
}

/// The form of a title under which titles are compared.
pub fn normalized_title_key(title: &str) -> (key: String)
    ensures
        key@ == title_key(title@),
{
    lowercase_text(trim_text(title))
}

/// The place of the first tag at or after `from` whose title has the given
/// key, or the number of tags where there is none.
pub open spec fn tag_position_from(tags: Seq<TagView>, key: Seq<char>, from: int) -> int
    decreases tags.len() - from,
{
    if from < 0 || from >= tags.len() {
        tags.len() as int
    } else if title_key(tags[from].title) == key {
        from
    } else {
        tag_position_from(tags, key, from + 1)
    }
}

/// The first tag whose title counts as the given one, if there is any.
pub open spec fn tag_titled(tags: Seq<TagView>, title: Seq<char>) -> Option<TagView> {
    let position = tag_position_from(tags, title_key(title), 0);
    if position < tags.len() {
        Some(tags[position])
    } else {
        None
    }
}

/// The place of the first tag whose title is the given one, white space
/// around it and the case of its letters set aside.
pub fn find_tag_place(tags: &Vec<Tag>, title: &str) -> (place: Option<usize>)
    ensures
        match place {
            Some(index) => index < tags.len() && tag_titled(tags.deep_view(), title@) == Some(
                tags[index as int]@,
            ),
            None => tag_titled(tags.deep_view(), title@) is None,
        },
{
    let key = normalized_title_key(title);
    let mut i: usize = 0;
    while i < tags.len()
        invariant
            i <= tags.len(),
            key@ == title_key(title@),
            tag_position_from(tags.deep_view(), key@, 0) == tag_position_from(
                tags.deep_view(),
                key@,
                i as int,
            ),
        decreases tags.len() - i,
    {
        assert(tags.deep_view()[i as int] == tags[i as int]@);
        if normalized_title_key(tags[i].title.as_str()) == key {
            return Some(i);
        }
        i += 1;
    }
    None
}

/// Finds the first tag whose title is the given one, white space around it
/// and the case of its letters set aside.
pub fn find_tag_by_title_case_insensitive<'tag>(tags: &'tag Vec<Tag>, title: &str) -> (found: Option<
    &'tag Tag,
>)
    ensures
        match found {
            Some(tag) => tag_titled(tags.deep_view(), title@) == Some(tag@),
            None => tag_titled(tags.deep_view(), title@) is None,
        },
{
    match find_tag_place(tags, title) {
        Some(index) => Some(&tags[index]),
        None => None,
    }
}

/// Some tag has the given id.
pub open spec fn has_tag(tags: Seq<TagView>, id: Seq<char>) -> bool {
    exists|i: int| 0 <= i < tags.len() && (#[trigger] tags[i]).id == id
}

/// Checks that the parent named for a new tag exists. A tag without a
/// parent passes.
pub fn validate_parent_tag_exists(tags: &Vec<Tag>, parent_tag_id: Option<&String>) -> (checked:
    Result<(), LedgerError>)
    ensures
        match parent_tag_id {
            Some(parent_id) => if has_tag(tags.deep_view(), parent_id@) {
                checked is Ok
            } else {
                checked matches Err(error) && error@ == (ErrorView::ParentTagNotFound {
                    id: parent_id@,
                })
            },
            None => checked is Ok,
        },
{
    if let Some(parent_id) = parent_tag_id {
        let mut i: usize = 0;
        while i < tags.len()
            invariant
                i <= tags.len(),
                parent_tag_id == Some(parent_id),
                forall|j: int| 0 <= j < i ==> (#[trigger] tags.deep_view()[j]).id != parent_id@,
            decreases tags.len() - i,
        {
            assert(tags.deep_view()[i as int] == tags[i as int]@);
            if tags[i].id == *parent_id {
                return Ok(());
            }
            i += 1;
        }
        return Err(LedgerError::ParentTagNotFound { id: parent_id.clone() });
    }
    Ok(())
}

/// What to do about a request for a new tag.
#[derive(Debug)]
pub enum TagDecision {
    /// A tag with the title exists: it is the one at this place of the
    /// list, and nothing is created.
    Existing(usize),
    /// No tag has the title: one is to be created under this title.
    Create(String),
}

/// What is decided about a request for a new tag.
pub ghost enum DecisionView {
    Refused(ErrorView),
    Existing(TagView),
    Create(Seq<char>),
}

/// The decision about a request for a new tag. A blank title is refused. A
/// title that an existing tag has leads to the first such tag. Else a parent
/// that is named must exist, and the tag is to be created under the title
/// without the white space around it.
pub open spec fn tag_decision(
    title: Seq<char>,
    parent_tag_id: Option<Seq<char>>,
    tags: Seq<TagView>,
) -> DecisionView {
    if trimmed(title).len() == 0 {
        DecisionView::Refused(ErrorView::BlankTitle)
    } else if tag_titled(tags, trimmed(title)) is Some {
        DecisionView::Existing(tag_titled(tags, trimmed(title))->0)
    } else if parent_tag_id is Some && !has_tag(tags, parent_tag_id->0) {
        DecisionView::Refused(ErrorView::ParentTagNotFound { id: parent_tag_id->0 })
    } else {
        DecisionView::Create(trimmed(title))
    }
}

/// Decides whether a request for a new tag creates one.
///
/// A blank title is refused. A title that an existing tag has, white space
/// and case set aside, leads to that tag, whatever parent the request names.
/// Else the parent must exist, if one is named, and the tag is to be created
/// under the title without the white space around it.
pub fn decide_tag(title: &str, parent_tag_id: Option<&String>, tags: &Vec<Tag>) -> (decision:
    Result<TagDecision, LedgerError>)
    ensures
        match tag_decision(
            title@,
            match parent_tag_id {
                Some(parent_id) => Some(parent_id@),
                None => None,
            },
            tags.deep_view(),
        ) {
            DecisionView::Refused(reason) => decision matches Err(error) && error@ == reason,
            DecisionView::Existing(tag) => decision matches Ok(TagDecision::Existing(index))
                && index < tags.len() && tags[index as int]@ == tag,
            DecisionView::Create(rest) => decision matches Ok(TagDecision::Create(title))
                && title@ == rest,
        },
{
    let normalized = normalize_tag_title(title)?;
    if let Some(index) = find_tag_place(tags, normalized.as_str()) {
        return Ok(TagDecision::Existing(index));
    }
    validate_parent_tag_exists(tags, parent_tag_id)?;
    Ok(TagDecision::Create(normalized))
}

/// The user that new records belong to: the first user of the ledger, or
/// user 0 where the ledger has none.
pub fn owner_of(user_ids: &Vec<i64>) -> (owner: i64)
    ensures
        owner == if user_ids.len() > 0 {
            user_ids[0]
        } else {
            0
        },
{
    if user_ids.len() > 0 {
        user_ids[0]
    } else {
        0
    }
}

/// The flag, or what holds where none is given.
pub open spec fn flag_or(flag: Option<bool>, default: bool) -> bool {
    match flag {
        Some(value) => value,
        None => default,
    }
}

/// The new tag for a description, an owner, a title, an identifier and the
/// time of creation. Unless the description says otherwise it shows and
/// counts on the outcome side only. It has no picture and no static id, and
/// it is not archived.
pub open spec fn tag_built(
    params: CreateTagView,
    user_id: i64,
    title: Seq<char>,
    id: Seq<char>,
    now: Timestamp,
) -> TagView {
    TagView {
        id,
        changed: now,
        user: user_id,
        title,
        parent: params.parent_tag_id,
        icon: params.icon,
        picture: None,
        color: params.color,
        show_income: flag_or(params.show_income, false),
        show_outcome: flag_or(params.show_outcome, true),
        budget_income: flag_or(params.budget_income, false),
        budget_outcome: flag_or(params.budget_outcome, true),
        required: params.required,
        static_id: None,
        archive: Some(false),
    }
}

/// The flag, or the default where none is given.
fn flag_or_default(flag: Option<bool>, default: bool) -> (value: bool)
    ensures
        value == flag_or(flag, default),
{
    match flag {
        Some(value) => value,
        None => default,
    }
}

/// Builds a tag under the identifier and the time of creation given.
pub fn assemble_tag(
    params: CreateTagParams,
    user_id: i64,
    title: String,
    id: String,
    now: Timestamp,
) -> (tag: Tag)
    ensures
        tag@ == tag_built(params@, user_id, title@, id@, now),
{
    Tag {
        id,
        changed: now,
        user: user_id,
        title,
        parent: params.parent_tag_id,
        icon: params.icon,
        picture: None,
        color: params.color,
        show_income: flag_or_default(params.show_income, false),
        show_outcome: flag_or_default(params.show_outcome, true),
        budget_income: flag_or_default(params.budget_income, false),
        budget_outcome: flag_or_default(params.budget_outcome, true),
        required: params.required,
        static_id: None,
        archive: Some(false),
    }
}

/// Builds a tag with a fresh identifier, changed at the current time.
pub fn build_tag(params: CreateTagParams, user_id: i64, title: String) -> (tag: Tag)
    ensures
        is_hyphenated_id(tag@.id),
        tag@ == tag_built(params@, user_id, title@, tag@.id, tag@.changed),
{
    let id = fresh_id();
    let now = current_time();
    assemble_tag(params, user_id, title, id, now)
}

} // verus!
