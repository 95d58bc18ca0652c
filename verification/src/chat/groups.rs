//! Group chats: who a new group holds and with which role, and the answers
//! to joining, leaving, editing and deleting.
use vstd::prelude::*;
use crate::common::AppError;
use crate::chat::rooms::contains_id;
use crate::text::own;

verus! {

#[derive(PartialEq, Eq, Structural, Clone, Copy, Debug)]
pub enum GroupRole {
    Owner,
    Member,
}

/// `r` is the error `e(message)` for the variant that `kind` names.
pub open spec fn is_error(r: Result<(), AppError>, kind: int, message: Seq<char>) -> bool {
    match r {
        Err(AppError::BadRequest(m)) => kind == 0 && m@ == message,
        Err(AppError::NotFound(m)) => kind == 1 && m@ == message,
        _ => false,
    }
}

/// A group needs between 1 and 50 invited participants.
pub fn validate_group_participants(participants: &Vec<u128>) -> (r: Result<(), AppError>)
    ensures
        participants@.len() == 0 ==> is_error(r, 0, "Group chat must have at least one participant"@),
        participants@.len() > 50 ==> is_error(r, 0, "Group chat cannot have more than 50 participants"@),
        1 <= participants@.len() <= 50 ==> r is Ok,
{
    if participants.len() == 0 {
        return Err(AppError::BadRequest(own("Group chat must have at least one participant")));
    }
    if participants.len() > 50 {
        return Err(AppError::BadRequest(own("Group chat cannot have more than 50 participants")));
    }
    Ok(())
}

/// The members of a new group: the invited participants, and the creator
/// after them when not invited.
pub fn group_members(participants: &Vec<u128>, creator: u128) -> (m: Vec<u128>)
    ensures
        m@ == if participants@.contains(creator) { participants@ } else { participants@.push(creator) },
{
    let mut m = crate::chat::rooms::copy_ids(participants);
    if !contains_id(participants, creator) {
        m.push(creator);
    }
    m
}

/// The creator owns the group; everyone else is a member.
pub fn group_role(participant: u128, creator: u128) -> (r: GroupRole)
    ensures
        r == if participant == creator { GroupRole::Owner } else { GroupRole::Member },
{
    if participant == creator {
        GroupRole::Owner
    } else {
        GroupRole::Member
    }
}

/// The role's name as stored: `Owner` or `Member`.
pub fn group_role_name(r: GroupRole) -> (s: &'static str)
    ensures
        s@ == match r { GroupRole::Owner => "Owner"@, GroupRole::Member => "Member"@ },
{
    match r {
        GroupRole::Owner => "Owner",
        GroupRole::Member => "Member",
    }
}

/// Joining needs an existing group that the user is not in yet.
pub fn join_group_outcome(group_exists: bool, already_participant: bool) -> (r: Result<(), AppError>)
    ensures
        !group_exists ==> is_error(r, 1, "Group chat not found"@),
        group_exists && already_participant ==> is_error(r, 0, "User is already a participant"@),
        group_exists && !already_participant ==> r is Ok,
{
    if !group_exists {
        return Err(AppError::NotFound(own("Group chat not found")));
    }
    if already_participant {
        return Err(AppError::BadRequest(own("User is already a participant")));
    }
    Ok(())
}

/// Leaving removed no row: the user was not in the group.
pub fn leave_group_outcome(rows_affected: u64) -> (r: Result<(), AppError>)
    ensures
        rows_affected == 0 ==> is_error(r, 1, "User is not a participant of this group"@),
        rows_affected > 0 ==> r is Ok,
{
    if rows_affected == 0 {
        return Err(AppError::NotFound(own("User is not a participant of this group")));
    }
    Ok(())
}

/// An edit found no message of the user's.
pub fn edit_outcome(found: bool) -> (r: Result<(), AppError>)
    ensures
        !found ==> is_error(r, 1, "Message not found or you don't have permission to edit it"@),
        found ==> r is Ok,
{
    if !found {
        return Err(AppError::NotFound(own("Message not found or you don't have permission to edit it")));
    }
    Ok(())
}

/// A deletion removed no message of the user's.
pub fn delete_outcome(rows_affected: u64) -> (r: Result<(), AppError>)
    ensures
        rows_affected == 0 ==> is_error(r, 1, "Message not found or you don't have permission to delete it"@),
        rows_affected > 0 ==> r is Ok,
{
    if rows_affected == 0 {
        return Err(AppError::NotFound(own("Message not found or you don't have permission to delete it")));
    }
    Ok(())
}

} // verus!
