//! The message taxonomy: a closed set of typed variants built from a parsed
//! JSON payload by inspecting its command tag.
//!
//! Parsing never fails a session: an unrecognized tag yields `Raw` with the
//! whole document, and a known tag whose required fields are absent or of the
//! wrong shape yields `ParsingError` with the original text — never a
//! half-filled variant, and never a panic.

use crate::ext::{json_doc_of, lossy_of, lossy_text, parse_json};
use crate::value::{
    opt_at, opt_bool, opt_get, opt_i32, opt_is_one, opt_is_zero, opt_str, opt_u32, str_eq, Json,
};
use vstd::prelude::*;

verus! {

/// A paid recurring-subscription rank. The wire ordinal runs opposite to the
/// rank's standing: 0 is no guard, 1 the highest rank, 3 the lowest.
#[derive(Clone, Copy, Debug, PartialEq, Eq, Structural)]
pub enum GuardLevel {
    /// Not a guard member.
    NoGuard,
    /// The lowest paid rank (wire ordinal 3).
    Captain,
    /// The middle paid rank (wire ordinal 2).
    Praefect,
    /// The highest paid rank (wire ordinal 1).
    Governor,
}

impl GuardLevel {
    /// The rank of a wire ordinal: 0, 1, 2, 3 stand for no guard, Governor,
    /// Praefect, Captain; anything else is no rank at all.
    pub open spec fn spec_from(n: u32) -> Option<GuardLevel> {
        if n == 0 {
            Some(GuardLevel::NoGuard)
        } else if n == 1 {
            Some(GuardLevel::Governor)
        } else if n == 2 {
            Some(GuardLevel::Praefect)
        } else if n == 3 {
            Some(GuardLevel::Captain)
        } else {
            None
        }
    }

    pub fn from(n: u32) -> (r: Option<GuardLevel>)
        ensures
            r == Self::spec_from(n),
    {
        if n == 0 {
            Some(GuardLevel::NoGuard)
        } else if n == 1 {
            Some(GuardLevel::Governor)
        } else if n == 2 {
            Some(GuardLevel::Praefect)
        } else if n == 3 {
            Some(GuardLevel::Captain)
        } else {
            None
        }
    }
}

/// One decoded chat-feed event.
#[derive(Debug, PartialEq)]
#[allow(inconsistent_fields)]
pub enum Message {
    /// The stream has ended.
    Preparing,
    /// The stream has started.
    Live,
    /// The room's title or area changed.
    RoomChange { title: String, area_name: String, parent_area_name: String },
    /// One chat line. The payload encodes it as a positional tuple; the
    /// indices read here are the wire format itself.
    Danmaku {
        mode: u32,
        size: u32,
        color: u32,
        dmid: i32,
        text: String,
        kind: u32,
        uid: u32,
        uname: String,
    },
    /// A gift was sent.
    SendGift { action: String, gift_name: String, num: u32, uid: u32, uname: String },
    /// A gift combo ended.
    ComboEnd { action: String, gift_name: String, num: u32, uid: u32, uname: String },
    /// An admin or a paying member entered the room.
    Welcome { is_admin: bool, is_svip: bool, uid: u32, uname: String },
    /// A guard member entered the room.
    WelcomeGuard { guard_level: GuardLevel, uid: u32, uname: String },
    /// The follower count changed.
    RoomRealTimeMessageUpdate { fans: u32 },
    /// The room's rank was announced.
    RoomRank { rank_desc: String, color: String, timestamp: u32 },
    /// An entry effect for a high-ranked member.
    EntryEffect {
        id: u32,
        uid: u32,
        target_id: u32,
        face: String,
        copy_writing: String,
        copy_color: String,
    },
    /// A server-wide notice.
    NoticeMessage { roomid: u32, real_roomid: u32, msg_common: String, msg_self: String },
    /// A paid pinned message.
    SuperChatMessage { id: String, sender_uid: u32, price: u32, message: String, sender_name: String },
    /// A paid pinned message with a translation attached.
    SuperChatMessageJapanese {
        id: String,
        sender_uid: String,
        price: u32,
        message: String,
        message_jpn: String,
        sender_name: String,
    },
    /// The room was listed as a hot room; no payload.
    HotRoomNotify,
    /// A command this taxonomy does not know; the whole document, unchanged.
    Raw(Json),
    /// A known command whose required fields could not be read; the original
    /// payload text.
    ParsingError(String),
}

pub open spec fn room_change_of(j: Json) -> Option<Message> {
    let data = j.spec_get("data"@);
    match (
        data.spec_get("title"@).spec_str(),
        data.spec_get("area_name"@).spec_str(),
        data.spec_get("parent_area_name"@).spec_str(),
    ) {
        (Some(title), Some(area_name), Some(parent_area_name)) => Some(
            Message::RoomChange { title, area_name, parent_area_name },
        ),
        _ => None,
    }
}

/// The chat-line recipe: indices 0,1,2,3,5,9 of a leading positional array
/// and a nested user array, as the wire format lays them out.
pub open spec fn danmaku_of(j: Json) -> Option<Message> {
    let info = j.spec_get("info"@);
    match (
        info.spec_at(0).spec_at(1).spec_u32(),
        info.spec_at(0).spec_at(2).spec_u32(),
        info.spec_at(0).spec_at(3).spec_u32(),
        info.spec_at(0).spec_at(5).spec_i32(),
        info.spec_at(1).spec_str(),
        info.spec_at(0).spec_at(9).spec_u32(),
        info.spec_at(2).spec_at(0).spec_u32(),
        info.spec_at(2).spec_at(1).spec_str(),
    ) {
        (
            Some(mode),
            Some(size),
            Some(color),
            Some(dmid),
            Some(text),
            Some(kind),
            Some(uid),
            Some(uname),
        ) => Some(Message::Danmaku { mode, size, color, dmid, text, kind, uid, uname }),
        _ => None,
    }
}

pub open spec fn send_gift_of(j: Json) -> Option<Message> {
    let data = j.spec_get("data"@);
    match (
        data.spec_get("action"@).spec_str(),
        data.spec_get("giftName"@).spec_str(),
        data.spec_get("num"@).spec_u32(),
        data.spec_get("uid"@).spec_u32(),
        data.spec_get("uname"@).spec_str(),
    ) {
        (Some(action), Some(gift_name), Some(num), Some(uid), Some(uname)) => Some(
            Message::SendGift { action, gift_name, num, uid, uname },
        ),
        _ => None,
    }
}

pub open spec fn combo_end_of(j: Json) -> Option<Message> {
    let data = j.spec_get("data"@);
    match (
        data.spec_get("action"@).spec_str(),
        data.spec_get("gift_name"@).spec_str(),
        data.spec_get("combo_num"@).spec_u32(),
        data.spec_get("uid"@).spec_u32(),
        data.spec_get("uname"@).spec_str(),
    ) {
        (Some(action), Some(gift_name), Some(num), Some(uid), Some(uname)) => Some(
            Message::ComboEnd { action, gift_name, num, uid, uname },
        ),
        _ => None,
    }
}

/// A welcome record must carry the vip marker as the integer one; a record
/// without it fails the parse of this message, never the session.
pub open spec fn welcome_of(j: Json) -> Option<Message> {
    let data = j.spec_get("data"@);
    if !data.spec_get("vip"@).spec_is_one() {
        None
    } else {
        match (
            data.spec_get("is_admin"@).spec_bool(),
            data.spec_get("uid"@).spec_u32(),
            data.spec_get("uname"@).spec_str(),
        ) {
            (Some(is_admin), Some(uid), Some(uname)) => Some(
                Message::Welcome {
                    is_admin,
                    is_svip: !data.spec_get("svip"@).spec_is_zero(),
                    uid,
                    uname,
                },
            ),
            _ => None,
        }
    }
}

pub open spec fn welcome_guard_of(j: Json) -> Option<Message> {
    let data = j.spec_get("data"@);
    match (
        data.spec_get("guard_level"@).spec_u32(),
        data.spec_get("uid"@).spec_u32(),
        data.spec_get("username"@).spec_str(),
    ) {
        (Some(level), Some(uid), Some(uname)) => match GuardLevel::spec_from(level) {
            Some(guard_level) => Some(Message::WelcomeGuard { guard_level, uid, uname }),
            None => None,
        },
        _ => None,
    }
}

pub open spec fn room_rank_of(j: Json) -> Option<Message> {
    let data = j.spec_get("data"@);
    match (
        data.spec_get("rank_desc"@).spec_str(),
        data.spec_get("color"@).spec_str(),
        data.spec_get("timestamp"@).spec_u32(),
    ) {
        (Some(rank_desc), Some(color), Some(timestamp)) => Some(
            Message::RoomRank { rank_desc, color, timestamp },
        ),
        _ => None,
    }
}

pub open spec fn entry_effect_of(j: Json) -> Option<Message> {
    let data = j.spec_get("data"@);
    match (
        data.spec_get("id"@).spec_u32(),
        data.spec_get("uid"@).spec_u32(),
        data.spec_get("target_id"@).spec_u32(),
        data.spec_get("face"@).spec_str(),
        data.spec_get("copy_writing"@).spec_str(),
        data.spec_get("copy_color"@).spec_str(),
    ) {
        (Some(id), Some(uid), Some(target_id), Some(face), Some(copy_writing), Some(copy_color)) =>
            Some(Message::EntryEffect { id, uid, target_id, face, copy_writing, copy_color }),
        _ => None,
    }
}

/// A notice reads its fields from the top of the document, not from `data`.
pub open spec fn notice_message_of(j: Json) -> Option<Message> {
    match (
        j.spec_get("roomid"@).spec_u32(),
        j.spec_get("real_roomid"@).spec_u32(),
        j.spec_get("msg_common"@).spec_str(),
        j.spec_get("msg_self"@).spec_str(),
    ) {
        (Some(roomid), Some(real_roomid), Some(msg_common), Some(msg_self)) => Some(
            Message::NoticeMessage { roomid, real_roomid, msg_common, msg_self },
        ),
        _ => None,
    }
}

pub open spec fn fans_update_of(j: Json) -> Option<Message> {
    match j.spec_get("data"@).spec_get("fans"@).spec_u32() {
        Some(fans) => Some(Message::RoomRealTimeMessageUpdate { fans }),
        None => None,
    }
}

pub open spec fn super_chat_of(j: Json) -> Option<Message> {
    let data = j.spec_get("data"@);
    match (
        data.spec_get("id"@).spec_str(),
        data.spec_get("uid"@).spec_u32(),
        data.spec_get("price"@).spec_u32(),
        data.spec_get("message"@).spec_str(),
        data.spec_get("user_info"@).spec_get("uname"@).spec_str(),
    ) {
        (Some(id), Some(sender_uid), Some(price), Some(message), Some(sender_name)) => Some(
            Message::SuperChatMessage { id, sender_uid, price, message, sender_name },
        ),
        _ => None,
    }
}

pub open spec fn super_chat_jpn_of(j: Json) -> Option<Message> {
    let data = j.spec_get("data"@);
    match (
        data.spec_get("id"@).spec_str(),
        data.spec_get("uid"@).spec_str(),
        data.spec_get("price"@).spec_u32(),
        data.spec_get("message"@).spec_str(),
        data.spec_get("message_jpn"@).spec_str(),
        data.spec_get("user_info"@).spec_get("uname"@).spec_str(),
    ) {
        (Some(id), Some(sender_uid), Some(price), Some(message), Some(message_jpn), Some(
            sender_name,
        )) => Some(
            Message::SuperChatMessageJapanese {
                id,
                sender_uid,
                price,
                message,
                message_jpn,
                sender_name,
            },
        ),
        _ => None,
    }
}

/// What a document parses to: `None` exactly when the command tag is absent
/// or a known tag's required fields cannot be read.
pub open spec fn parse_spec(j: Json) -> Option<Message> {
    match j.spec_get("cmd"@).spec_str() {
        None => None,
        Some(cmd) => if cmd@ == "PREPARING"@ {
            Some(Message::Preparing)
        } else if cmd@ == "LIVE"@ {
            Some(Message::Live)
        } else if cmd@ == "ROOM_CHANGE"@ {
            room_change_of(j)
        } else if cmd@ == "DANMU_MSG"@ {
            danmaku_of(j)
        } else if cmd@ == "SEND_GIFT"@ {
            send_gift_of(j)
        } else if cmd@ == "COMBO_END"@ {
            combo_end_of(j)
        } else if cmd@ == "WELCOME"@ {
            welcome_of(j)
        } else if cmd@ == "WELCOME_GUARD"@ {
            welcome_guard_of(j)
        } else if cmd@ == "ROOM_RANK"@ {
            room_rank_of(j)
        } else if cmd@ == "ENTRY_EFFECT"@ {
            entry_effect_of(j)
        } else if cmd@ == "NOTICE_MSG"@ {
            notice_message_of(j)
        } else if cmd@ == "ROOM_REAL_TIME_MESSAGE_UPDATE"@ {
            fans_update_of(j)
        } else if cmd@ == "SUPER_CHAT_MESSAGE"@ {
            super_chat_of(j)
        } else if cmd@ == "SUPER_CHAT_MESSAGE_JPN"@ {
            super_chat_jpn_of(j)
        } else if cmd@ == "HOT_ROOM_NOTIFY"@ {
            Some(Message::HotRoomNotify)
        } else {
            Some(Message::Raw(j))
        },
    }
}

fn parse_room_change(j: &Json) -> (r: Option<Message>)
    ensures
        r == room_change_of(*j),
{
    let data = j.get("data");
    let title = match opt_str(opt_get(data, "title")) {
        Some(v) => v,
        None => { return None; },
    };
    let area_name = match opt_str(opt_get(data, "area_name")) {
        Some(v) => v,
        None => { return None; },
    };
    let parent_area_name = match opt_str(opt_get(data, "parent_area_name")) {
        Some(v) => v,
        None => { return None; },
    };
    Some(Message::RoomChange { title, area_name, parent_area_name })
}

fn parse_danmaku(j: &Json) -> (r: Option<Message>)
    ensures
        r == danmaku_of(*j),
{
    let info = j.get("info");
    let head = opt_at(info, 0);
    let user = opt_at(info, 2);
    let mode = match opt_u32(opt_at(head, 1)) {
        Some(v) => v,
        None => { return None; },
    };
    let size = match opt_u32(opt_at(head, 2)) {
        Some(v) => v,
        None => { return None; },
    };
    let color = match opt_u32(opt_at(head, 3)) {
        Some(v) => v,
        None => { return None; },
    };
    let dmid = match opt_i32(opt_at(head, 5)) {
        Some(v) => v,
        None => { return None; },
    };
    let text = match opt_str(opt_at(info, 1)) {
        Some(v) => v,
        None => { return None; },
    };
    let kind = match opt_u32(opt_at(head, 9)) {
        Some(v) => v,
        None => { return None; },
    };
    let uid = match opt_u32(opt_at(user, 0)) {
        Some(v) => v,
        None => { return None; },
    };
    let uname = match opt_str(opt_at(user, 1)) {
        Some(v) => v,
        None => { return None; },
    };
    Some(Message::Danmaku { mode, size, color, dmid, text, kind, uid, uname })
}

fn parse_send_gift(j: &Json) -> (r: Option<Message>)
    ensures
        r == send_gift_of(*j),
{
    let data = j.get("data");
    let action = match opt_str(opt_get(data, "action")) {
        Some(v) => v,
        None => { return None; },
    };
    let gift_name = match opt_str(opt_get(data, "giftName")) {
        Some(v) => v,
        None => { return None; },
    };
    let num = match opt_u32(opt_get(data, "num")) {
        Some(v) => v,
        None => { return None; },
    };
    let uid = match opt_u32(opt_get(data, "uid")) {
        Some(v) => v,
        None => { return None; },
    };
    let uname = match opt_str(opt_get(data, "uname")) {
        Some(v) => v,
        None => { return None; },
    };
    Some(Message::SendGift { action, gift_name, num, uid, uname })
}

fn parse_combo_end(j: &Json) -> (r: Option<Message>)
    ensures
        r == combo_end_of(*j),
{
    let data = j.get("data");
    let action = match opt_str(opt_get(data, "action")) {
        Some(v) => v,
        None => { return None; },
    };
    let gift_name = match opt_str(opt_get(data, "gift_name")) {
        Some(v) => v,
        None => { return None; },
    };
    let num = match opt_u32(opt_get(data, "combo_num")) {
        Some(v) => v,
        None => { return None; },
    };
    let uid = match opt_u32(opt_get(data, "uid")) {
        Some(v) => v,
        None => { return None; },
    };
    let uname = match opt_str(opt_get(data, "uname")) {
        Some(v) => v,
        None => { return None; },
    };
    Some(Message::ComboEnd { action, gift_name, num, uid, uname })
}

fn parse_welcome(j: &Json) -> (r: Option<Message>)
    ensures
        r == welcome_of(*j),
{
    let data = j.get("data");
    if !opt_is_one(opt_get(data, "vip")) {
        return None;
    }
    let is_admin = match opt_bool(opt_get(data, "is_admin")) {
        Some(v) => v,
        None => { return None; },
    };
    let is_svip = !opt_is_zero(opt_get(data, "svip"));
    let uid = match opt_u32(opt_get(data, "uid")) {
        Some(v) => v,
        None => { return None; },
    };
    let uname = match opt_str(opt_get(data, "uname")) {
        Some(v) => v,
        None => { return None; },
    };
    Some(Message::Welcome { is_admin, is_svip, uid, uname })
}

fn parse_welcome_guard(j: &Json) -> (r: Option<Message>)
    ensures
        r == welcome_guard_of(*j),
{
    let data = j.get("data");
    let level = match opt_u32(opt_get(data, "guard_level")) {
        Some(v) => v,
        None => { return None; },
    };
    let uid = match opt_u32(opt_get(data, "uid")) {
        Some(v) => v,
        None => { return None; },
    };
    let uname = match opt_str(opt_get(data, "username")) {
        Some(v) => v,
        None => { return None; },
    };
    match GuardLevel::from(level) {
        Some(guard_level) => Some(Message::WelcomeGuard { guard_level, uid, uname }),
        None => None,
    }
}

fn parse_room_rank(j: &Json) -> (r: Option<Message>)
    ensures
        r == room_rank_of(*j),
{
    let data = j.get("data");
    let rank_desc = match opt_str(opt_get(data, "rank_desc")) {
        Some(v) => v,
        None => { return None; },
    };
    let color = match opt_str(opt_get(data, "color")) {
        Some(v) => v,
        None => { return None; },
    };
    let timestamp = match opt_u32(opt_get(data, "timestamp")) {
        Some(v) => v,
        None => { return None; },
    };
    Some(Message::RoomRank { rank_desc, color, timestamp })
}

fn parse_entry_effect(j: &Json) -> (r: Option<Message>)
    ensures
        r == entry_effect_of(*j),
{
    let data = j.get("data");
    let id = match opt_u32(opt_get(data, "id")) {
        Some(v) => v,
        None => { return None; },
    };
    let uid = match opt_u32(opt_get(data, "uid")) {
        Some(v) => v,
        None => { return None; },
    };
    let target_id = match opt_u32(opt_get(data, "target_id")) {
        Some(v) => v,
        None => { return None; },
    };
    let face = match opt_str(opt_get(data, "face")) {
        Some(v) => v,
        None => { return None; },
    };
    let copy_writing = match opt_str(opt_get(data, "copy_writing")) {
        Some(v) => v,
        None => { return None; },
    };
    let copy_color = match opt_str(opt_get(data, "copy_color")) {
        Some(v) => v,
        None => { return None; },
    };
    Some(Message::EntryEffect { id, uid, target_id, face, copy_writing, copy_color })
}

fn parse_notice_message(j: &Json) -> (r: Option<Message>)
    ensures
        r == notice_message_of(*j),
{
    let roomid = match opt_u32(j.get("roomid")) {
        Some(v) => v,
        None => { return None; },
    };
    let real_roomid = match opt_u32(j.get("real_roomid")) {
        Some(v) => v,
        None => { return None; },
    };
    let msg_common = match opt_str(j.get("msg_common")) {
        Some(v) => v,
        None => { return None; },
    };
    let msg_self = match opt_str(j.get("msg_self")) {
        Some(v) => v,
        None => { return None; },
    };
    Some(Message::NoticeMessage { roomid, real_roomid, msg_common, msg_self })
}

fn parse_fans_update(j: &Json) -> (r: Option<Message>)
    ensures
        r == fans_update_of(*j),
{
    match opt_u32(opt_get(j.get("data"), "fans")) {
        Some(fans) => Some(Message::RoomRealTimeMessageUpdate { fans }),
        None => None,
    }
}

fn parse_super_chat(j: &Json) -> (r: Option<Message>)
    ensures
        r == super_chat_of(*j),
{
    let data = j.get("data");
    let id = match opt_str(opt_get(data, "id")) {
        Some(v) => v,
        None => { return None; },
    };
    let sender_uid = match opt_u32(opt_get(data, "uid")) {
        Some(v) => v,
        None => { return None; },
    };
    let price = match opt_u32(opt_get(data, "price")) {
        Some(v) => v,
        None => { return None; },
    };
    let message = match opt_str(opt_get(data, "message")) {
        Some(v) => v,
        None => { return None; },
    };
    let sender_name = match opt_str(opt_get(opt_get(data, "user_info"), "uname")) {
        Some(v) => v,
        None => { return None; },
    };
    Some(Message::SuperChatMessage { id, sender_uid, price, message, sender_name })
}

fn parse_super_chat_jpn(j: &Json) -> (r: Option<Message>)
    ensures
        r == super_chat_jpn_of(*j),
{
    let data = j.get("data");
    let id = match opt_str(opt_get(data, "id")) {
        Some(v) => v,
        None => { return None; },
    };
    let sender_uid = match opt_str(opt_get(data, "uid")) {
        Some(v) => v,
        None => { return None; },
    };
    let price = match opt_u32(opt_get(data, "price")) {
        Some(v) => v,
        None => { return None; },
    };
    let message = match opt_str(opt_get(data, "message")) {
        Some(v) => v,
        None => { return None; },
    };
    let message_jpn = match opt_str(opt_get(data, "message_jpn")) {
        Some(v) => v,
        None => { return None; },
    };
    let sender_name = match opt_str(opt_get(opt_get(data, "user_info"), "uname")) {
        Some(v) => v,
        None => { return None; },
    };
    Some(
        Message::SuperChatMessageJapanese {
            id,
            sender_uid,
            price,
            message,
            message_jpn,
            sender_name,
        },
    )
}

impl Message {
    /// Builds the variant a document's command tag selects. `None` exactly
    /// when the tag is absent, or a known tag's required fields cannot be
    /// read (the caller then keeps the original text as `ParsingError`).
    pub fn parse(json: Json) -> (r: Option<Message>)
        ensures
            r == parse_spec(json),
    {
        let cmd: String = match opt_str(json.get("cmd")) {
            Some(c) => c,
            None => { return None; },
        };
        if str_eq(cmd.as_str(), "PREPARING") {
            Some(Message::Preparing)
        } else if str_eq(cmd.as_str(), "LIVE") {
            Some(Message::Live)
        } else if str_eq(cmd.as_str(), "ROOM_CHANGE") {
            parse_room_change(&json)
        } else if str_eq(cmd.as_str(), "DANMU_MSG") {
            parse_danmaku(&json)
        } else if str_eq(cmd.as_str(), "SEND_GIFT") {
            parse_send_gift(&json)
        } else if str_eq(cmd.as_str(), "COMBO_END") {
            parse_combo_end(&json)
        } else if str_eq(cmd.as_str(), "WELCOME") {
            parse_welcome(&json)
        } else if str_eq(cmd.as_str(), "WELCOME_GUARD") {
            parse_welcome_guard(&json)
        } else if str_eq(cmd.as_str(), "ROOM_RANK") {
            parse_room_rank(&json)
        } else if str_eq(cmd.as_str(), "ENTRY_EFFECT") {
            parse_entry_effect(&json)
        } else if str_eq(cmd.as_str(), "NOTICE_MSG") {
            parse_notice_message(&json)
        } else if str_eq(cmd.as_str(), "ROOM_REAL_TIME_MESSAGE_UPDATE") {
            parse_fans_update(&json)
        } else if str_eq(cmd.as_str(), "SUPER_CHAT_MESSAGE") {
            parse_super_chat(&json)
        } else if str_eq(cmd.as_str(), "SUPER_CHAT_MESSAGE_JPN") {
            parse_super_chat_jpn(&json)
        } else if str_eq(cmd.as_str(), "HOT_ROOM_NOTIFY") {
            Some(Message::HotRoomNotify)
        } else {
            Some(Message::Raw(json))
        }
    }
}

/// What the message built from a raw payload must be: the parse of the
/// payload's text where that succeeds, else `ParsingError` holding that text.
pub open spec fn is_message_for(m: Message, payload: Seq<u8>) -> bool {
    let text = lossy_of(payload);
    match json_doc_of(text) {
        Some(j) => match parse_spec(j) {
            Some(pm) => m == pm,
            None => m matches Message::ParsingError(t) && t@ == text,
        },
        None => m matches Message::ParsingError(t) && t@ == text,
    }
}

/// Decodes one message payload, degrading to `ParsingError` with the
/// payload's text on malformed input; it never fails.
pub fn message_of_payload(payload: &[u8]) -> (m: Message)
    ensures
        is_message_for(m, payload@),
{
    let text = lossy_text(payload);
    match parse_json(text.as_str()) {
        Some(j) => match Message::parse(j) {
            Some(m) => m,
            None => Message::ParsingError(text),
        },
        None => Message::ParsingError(text),
    }
}

} // verus!
