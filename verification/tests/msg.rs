use mira::msg::{message_of_payload, GuardLevel, Message};
use mira::value::{Json, JsonNum};

fn s(v: &str) -> Json {
    Json::Str(v.to_string())
}

fn n(v: u64) -> Json {
    Json::Num(JsonNum { positive: true, mantissa: v, exponent: 0 })
}

fn neg(v: u64) -> Json {
    Json::Num(JsonNum { positive: false, mantissa: v, exponent: 0 })
}

fn obj(entries: Vec<(&str, Json)>) -> Json {
    Json::Obj(entries.into_iter().map(|(k, v)| (k.to_string(), v)).collect())
}

fn arr(items: Vec<Json>) -> Json {
    Json::Arr(items)
}

fn cmd(tag: &str, data: Json) -> Json {
    obj(vec![("cmd", s(tag)), ("data", data)])
}

#[test]
fn parses_preparing() {
    assert_eq!(Message::parse(obj(vec![("cmd", s("PREPARING"))])), Some(Message::Preparing));
}

#[test]
fn parses_live() {
    assert_eq!(Message::parse(obj(vec![("cmd", s("LIVE"))])), Some(Message::Live));
}

#[test]
fn parses_room_change() {
    let j = cmd(
        "ROOM_CHANGE",
        obj(vec![
            ("title", s("a title")),
            ("area_name", s("an area")),
            ("parent_area_name", s("a parent")),
        ]),
    );
    assert_eq!(
        Message::parse(j),
        Some(Message::RoomChange {
            title: "a title".to_string(),
            area_name: "an area".to_string(),
            parent_area_name: "a parent".to_string(),
        })
    );
}

#[test]
fn room_change_missing_any_field_fails() {
    let fields = ["title", "area_name", "parent_area_name"];
    for dropped in fields {
        let entries: Vec<(&str, Json)> = fields
            .iter()
            .filter(|f| **f != dropped)
            .map(|f| (*f, s("x")))
            .collect();
        let j = cmd("ROOM_CHANGE", obj(entries));
        assert_eq!(Message::parse(j), None, "field {} was not required", dropped);
    }
}

fn danmaku_info() -> Json {
    arr(vec![
        arr(vec![n(0), n(4), n(25), n(16777215), n(0), neg(42), n(0), n(0), n(0), n(5)]),
        s("hello"),
        arr(vec![n(77), s("alice")]),
    ])
}

#[test]
fn parses_danmaku_positional_tuple() {
    let j = obj(vec![("cmd", s("DANMU_MSG")), ("info", danmaku_info())]);
    assert_eq!(
        Message::parse(j),
        Some(Message::Danmaku {
            mode: 4,
            size: 25,
            color: 16777215,
            dmid: -42,
            text: "hello".to_string(),
            kind: 5,
            uid: 77,
            uname: "alice".to_string(),
        })
    );
}

#[test]
fn danmaku_short_head_array_fails() {
    // Index 9 is required; a nine-element head has none.
    let j = obj(vec![
        ("cmd", s("DANMU_MSG")),
        (
            "info",
            arr(vec![
                arr(vec![n(0), n(4), n(25), n(16777215), n(0), neg(42), n(0), n(0), n(0)]),
                s("hello"),
                arr(vec![n(77), s("alice")]),
            ]),
        ),
    ]);
    assert_eq!(Message::parse(j), None);
}

#[test]
fn danmaku_missing_text_fails() {
    let j = obj(vec![
        ("cmd", s("DANMU_MSG")),
        (
            "info",
            arr(vec![arr(vec![n(0), n(4), n(25), n(16777215), n(0), neg(42), n(0), n(0), n(0),
                n(5)])]),
        ),
    ]);
    assert_eq!(Message::parse(j), None);
}

#[test]
fn parses_send_gift() {
    let j = cmd(
        "SEND_GIFT",
        obj(vec![
            ("action", s("feeds")),
            ("giftName", s("stick")),
            ("num", n(3)),
            ("uid", n(12)),
            ("uname", s("carol")),
        ]),
    );
    assert_eq!(
        Message::parse(j),
        Some(Message::SendGift {
            action: "feeds".to_string(),
            gift_name: "stick".to_string(),
            num: 3,
            uid: 12,
            uname: "carol".to_string(),
        })
    );
}

#[test]
fn send_gift_wrong_type_fails() {
    let j = cmd(
        "SEND_GIFT",
        obj(vec![
            ("action", s("feeds")),
            ("giftName", s("stick")),
            ("num", s("three")),
            ("uid", n(12)),
            ("uname", s("carol")),
        ]),
    );
    assert_eq!(Message::parse(j), None);
}

#[test]
fn parses_combo_end() {
    let j = cmd(
        "COMBO_END",
        obj(vec![
            ("action", s("feeds")),
            ("gift_name", s("stick")),
            ("combo_num", n(9)),
            ("uid", n(12)),
            ("uname", s("carol")),
        ]),
    );
    assert_eq!(
        Message::parse(j),
        Some(Message::ComboEnd {
            action: "feeds".to_string(),
            gift_name: "stick".to_string(),
            num: 9,
            uid: 12,
            uname: "carol".to_string(),
        })
    );
}

#[test]
fn parses_welcome() {
    let j = cmd(
        "WELCOME",
        obj(vec![
            ("vip", n(1)),
            ("is_admin", Json::Bool(false)),
            ("svip", n(0)),
            ("uid", n(5)),
            ("uname", s("dave")),
        ]),
    );
    assert_eq!(
        Message::parse(j),
        Some(Message::Welcome {
            is_admin: false,
            is_svip: false,
            uid: 5,
            uname: "dave".to_string(),
        })
    );
}

#[test]
fn welcome_svip_nonzero_or_absent_reads_true() {
    let with_svip = cmd(
        "WELCOME",
        obj(vec![
            ("vip", n(1)),
            ("is_admin", Json::Bool(true)),
            ("svip", n(2)),
            ("uid", n(5)),
            ("uname", s("dave")),
        ]),
    );
    assert_eq!(
        Message::parse(with_svip),
        Some(Message::Welcome {
            is_admin: true,
            is_svip: true,
            uid: 5,
            uname: "dave".to_string(),
        })
    );
    let without_svip = cmd(
        "WELCOME",
        obj(vec![
            ("vip", n(1)),
            ("is_admin", Json::Bool(false)),
            ("uid", n(5)),
            ("uname", s("dave")),
        ]),
    );
    assert_eq!(
        Message::parse(without_svip),
        Some(Message::Welcome {
            is_admin: false,
            is_svip: true,
            uid: 5,
            uname: "dave".to_string(),
        })
    );
}

#[test]
fn welcome_without_vip_marker_fails() {
    let j = cmd(
        "WELCOME",
        obj(vec![
            ("is_admin", Json::Bool(false)),
            ("svip", n(0)),
            ("uid", n(5)),
            ("uname", s("dave")),
        ]),
    );
    assert_eq!(Message::parse(j), None);
}

#[test]
fn parses_welcome_guard() {
    let j = cmd(
        "WELCOME_GUARD",
        obj(vec![("guard_level", n(3)), ("uid", n(8)), ("username", s("erin"))]),
    );
    assert_eq!(
        Message::parse(j),
        Some(Message::WelcomeGuard {
            guard_level: GuardLevel::Captain,
            uid: 8,
            uname: "erin".to_string(),
        })
    );
}

#[test]
fn guard_level_ordinal_mapping() {
    assert_eq!(GuardLevel::from(0), Some(GuardLevel::NoGuard));
    assert_eq!(GuardLevel::from(1), Some(GuardLevel::Governor));
    assert_eq!(GuardLevel::from(2), Some(GuardLevel::Praefect));
    assert_eq!(GuardLevel::from(3), Some(GuardLevel::Captain));
    assert_eq!(GuardLevel::from(4), None);
}

#[test]
fn welcome_guard_out_of_range_ordinal_fails() {
    let j = cmd(
        "WELCOME_GUARD",
        obj(vec![("guard_level", n(4)), ("uid", n(8)), ("username", s("erin"))]),
    );
    assert_eq!(Message::parse(j), None);
}

#[test]
fn parses_room_rank() {
    let j = cmd(
        "ROOM_RANK",
        obj(vec![("rank_desc", s("top 10")), ("color", s("#ffffff")), ("timestamp", n(161803))]),
    );
    assert_eq!(
        Message::parse(j),
        Some(Message::RoomRank {
            rank_desc: "top 10".to_string(),
            color: "#ffffff".to_string(),
            timestamp: 161803,
        })
    );
}

#[test]
fn parses_entry_effect() {
    let j = cmd(
        "ENTRY_EFFECT",
        obj(vec![
            ("id", n(1)),
            ("uid", n(2)),
            ("target_id", n(3)),
            ("face", s("face.png")),
            ("copy_writing", s("welcome")),
            ("copy_color", s("#000000")),
        ]),
    );
    assert_eq!(
        Message::parse(j),
        Some(Message::EntryEffect {
            id: 1,
            uid: 2,
            target_id: 3,
            face: "face.png".to_string(),
            copy_writing: "welcome".to_string(),
            copy_color: "#000000".to_string(),
        })
    );
}

#[test]
fn parses_notice_message_from_top_level() {
    let j = obj(vec![
        ("cmd", s("NOTICE_MSG")),
        ("roomid", n(10)),
        ("real_roomid", n(11)),
        ("msg_common", s("common")),
        ("msg_self", s("self")),
    ]);
    assert_eq!(
        Message::parse(j),
        Some(Message::NoticeMessage {
            roomid: 10,
            real_roomid: 11,
            msg_common: "common".to_string(),
            msg_self: "self".to_string(),
        })
    );
}

#[test]
fn parses_fans_update() {
    let j = cmd("ROOM_REAL_TIME_MESSAGE_UPDATE", obj(vec![("fans", n(4321))]));
    assert_eq!(Message::parse(j), Some(Message::RoomRealTimeMessageUpdate { fans: 4321 }));
}

#[test]
fn parses_super_chat() {
    let j = cmd(
        "SUPER_CHAT_MESSAGE",
        obj(vec![
            ("id", s("sc-1")),
            ("uid", n(21)),
            ("price", n(30)),
            ("message", s("pinned")),
            ("user_info", obj(vec![("uname", s("frank"))])),
        ]),
    );
    assert_eq!(
        Message::parse(j),
        Some(Message::SuperChatMessage {
            id: "sc-1".to_string(),
            sender_uid: 21,
            price: 30,
            message: "pinned".to_string(),
            sender_name: "frank".to_string(),
        })
    );
}

#[test]
fn parses_super_chat_japanese() {
    let j = cmd(
        "SUPER_CHAT_MESSAGE_JPN",
        obj(vec![
            ("id", s("sc-2")),
            ("uid", s("22")),
            ("price", n(50)),
            ("message", s("original")),
            ("message_jpn", s("translated")),
            ("user_info", obj(vec![("uname", s("grace"))])),
        ]),
    );
    assert_eq!(
        Message::parse(j),
        Some(Message::SuperChatMessageJapanese {
            id: "sc-2".to_string(),
            sender_uid: "22".to_string(),
            price: 50,
            message: "original".to_string(),
            message_jpn: "translated".to_string(),
            sender_name: "grace".to_string(),
        })
    );
}

#[test]
fn super_chat_missing_user_info_fails() {
    let j = cmd(
        "SUPER_CHAT_MESSAGE",
        obj(vec![("id", s("sc-1")), ("uid", n(21)), ("price", n(30)), ("message", s("pinned"))]),
    );
    assert_eq!(Message::parse(j), None);
}

#[test]
fn parses_hot_room_notify() {
    assert_eq!(
        Message::parse(obj(vec![("cmd", s("HOT_ROOM_NOTIFY"))])),
        Some(Message::HotRoomNotify)
    );
}

#[test]
fn unknown_command_stays_raw_and_unchanged() {
    let j = obj(vec![("cmd", s("SOME_FUTURE_EVENT")), ("data", obj(vec![("k", n(1))]))]);
    let again = obj(vec![("cmd", s("SOME_FUTURE_EVENT")), ("data", obj(vec![("k", n(1))]))]);
    assert_eq!(Message::parse(j), Some(Message::Raw(again)));
}

#[test]
fn missing_command_tag_fails() {
    assert_eq!(Message::parse(obj(vec![("data", n(1))])), None);
    assert_eq!(Message::parse(obj(vec![("cmd", n(5))])), None);
    assert_eq!(Message::parse(Json::Null), None);
}

#[test]
fn numbers_out_of_range_fail() {
    // A fans count past u32 is rejected rather than truncated.
    let j = cmd("ROOM_REAL_TIME_MESSAGE_UPDATE", obj(vec![("fans", n(4294967296))]));
    assert_eq!(Message::parse(j), None);
    // A negative fans count is rejected too.
    let j = cmd("ROOM_REAL_TIME_MESSAGE_UPDATE", obj(vec![("fans", neg(1))]));
    assert_eq!(Message::parse(j), None);
}

#[test]
fn payload_text_parses_through_the_full_path() {
    let m = message_of_payload(b"{\"cmd\":\"ROOM_REAL_TIME_MESSAGE_UPDATE\",\"data\":{\"fans\":7}}");
    assert_eq!(m, Message::RoomRealTimeMessageUpdate { fans: 7 });
}

#[test]
fn known_command_with_missing_field_becomes_parsing_error() {
    let text = "{\"cmd\":\"ROOM_REAL_TIME_MESSAGE_UPDATE\",\"data\":{}}";
    let m = message_of_payload(text.as_bytes());
    assert_eq!(m, Message::ParsingError(text.to_string()));
}

#[test]
fn invalid_json_becomes_parsing_error_with_text() {
    let m = message_of_payload(b"{oops");
    assert_eq!(m, Message::ParsingError("{oops".to_string()));
}

#[test]
fn fractional_number_is_not_an_integer() {
    let m = message_of_payload(b"{\"cmd\":\"ROOM_REAL_TIME_MESSAGE_UPDATE\",\"data\":{\"fans\":7.5}}");
    assert_eq!(
        m,
        Message::ParsingError(
            "{\"cmd\":\"ROOM_REAL_TIME_MESSAGE_UPDATE\",\"data\":{\"fans\":7.5}}".to_string()
        )
    );
}
