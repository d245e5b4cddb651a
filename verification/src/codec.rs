//! The wire codec: typed events to frame text and back.
//!
//! Decoding accepts any well-formed envelope.  A recognized tag is decoded
//! into its variant; an unrecognized tag becomes
//! [`ServerToClientEvent::Unknown`], never an error, so that new server-side
//! event kinds do not abort the stream.  Text that is not a well-formed
//! envelope, or a recognized tag whose payload has the wrong shape, fails
//! with a decode error.  Encoding is total: every client event has a frame.
//!
//! The meaning of both directions is fixed by spec functions over character
//! sequences: [`decode_spec`] and [`encode_spec`].

use vstd::prelude::*;

use crate::event::ClientToServerEvent;
use crate::event::ErrorId;
use crate::event::ServerToClientEvent;
use crate::gateway::DecodeReason;
use crate::gateway::GatewayError;
use crate::json::obj_get;
use crate::json::spec_parse_text;
use crate::json::EnvFields;
use crate::json::JsonV;
use crate::json::ValueInfo;
use crate::json::env_fields_ok;
use crate::json::info_ok;
use crate::json::is_digit;
use crate::json::char_of;
use crate::message::Message;
use crate::message::SystemMessage;
use crate::text::chars_eq_str;
use crate::text::push_chars;
use crate::text::chars_of;
use crate::text::string_of_chars;

verus! {

/// What a decoded system message holds, over character sequences.
pub enum SystemMessageV {
    Text { content: Seq<char> },
    UserAdded { id: Seq<char>, by: Seq<char> },
    UserRemove { id: Seq<char>, by: Seq<char> },
    UserJoined { id: Seq<char> },
    UserLeft { id: Seq<char> },
    UserKicked { id: Seq<char> },
    UserBanned { id: Seq<char> },
    ChannelRenamed { name: Seq<char>, by: Seq<char> },
    ChannelDescriptionChanged { by: Seq<char> },
    ChannelIconChanged { by: Seq<char> },
}

/// What a decoded server event holds, over character sequences.
pub enum ServerEventV {
    Error { error: ErrorId },
    Authenticated,
    Pong { data: u32 },
    Message { content: Option<Seq<char>>, system: Option<SystemMessageV>, channel: Seq<char> },
    Unknown,
}

/// The model of a system message.
pub open spec fn system_v(m: SystemMessage) -> SystemMessageV {
    match m {
        SystemMessage::Text { content } => SystemMessageV::Text { content: content@ },
        SystemMessage::UserAdded { id, by } => SystemMessageV::UserAdded { id: id@, by: by@ },
        SystemMessage::UserRemove { id, by } => SystemMessageV::UserRemove { id: id@, by: by@ },
        SystemMessage::UserJoined { id } => SystemMessageV::UserJoined { id: id@ },
        SystemMessage::UserLeft { id } => SystemMessageV::UserLeft { id: id@ },
        SystemMessage::UserKicked { id } => SystemMessageV::UserKicked { id: id@ },
        SystemMessage::UserBanned { id } => SystemMessageV::UserBanned { id: id@ },
        SystemMessage::ChannelRenamed { name, by } => SystemMessageV::ChannelRenamed {
            name: name@,
            by: by@,
        },
        SystemMessage::ChannelDescriptionChanged { by } => SystemMessageV::ChannelDescriptionChanged {
            by: by@,
        },
        SystemMessage::ChannelIconChanged { by } => SystemMessageV::ChannelIconChanged { by: by@ },
    }
}

/// The model of a decoded server event.
pub open spec fn server_event_v(e: ServerToClientEvent) -> ServerEventV {
    match e {
        ServerToClientEvent::Error { error } => ServerEventV::Error { error },
        ServerToClientEvent::Authenticated => ServerEventV::Authenticated,
        ServerToClientEvent::Pong { data } => ServerEventV::Pong { data },
        ServerToClientEvent::Message { message } => ServerEventV::Message {
            content: match message.content {
                Some(c) => Some(c@),
                None => None,
            },
            system: match message.system {
                Some(m) => Some(system_v(m)),
                None => None,
            },
            channel: message.channel@,
        },
        ServerToClientEvent::Unknown => ServerEventV::Unknown,
    }
}

/// Whether every character is a decimal digit.
pub open spec fn all_digits(ds: Seq<char>) -> bool {
    forall|k: int| 0 <= k < ds.len() ==> is_digit(#[trigger] ds[k])
}

/// The number written by a run of decimal digits.
pub open spec fn digits_val(ds: Seq<char>) -> int
    decreases ds.len(),
{
    if ds.len() == 0 {
        0
    } else {
        digits_val(ds.drop_last()) * 10 + (ds.last() as u32 - 48)
    }
}

/// The error identifier a tag names, if it names one.
pub open spec fn error_id_of(t: Seq<char>) -> Option<ErrorId> {
    if t == "LabelMe"@ {
        Some(ErrorId::LabelMe)
    } else if t == "InternalError"@ {
        Some(ErrorId::InternalError)
    } else if t == "InvalidSenssion"@ {
        Some(ErrorId::InvalidSenssion)
    } else if t == "OnboardingNotFinished"@ {
        Some(ErrorId::OnboardingNotFinished)
    } else if t == "AlreadyAuthenticated"@ {
        Some(ErrorId::AlreadyAuthenticated)
    } else {
        None
    }
}

/// The string a required member must hold.
pub open spec fn req_str(ms: Seq<(Seq<char>, JsonV)>, key: Seq<char>) -> Result<
    Seq<char>,
    DecodeReason,
> {
    match obj_get(ms, key) {
        Some(JsonV::Str(c)) => Ok(c),
        _ => Err(DecodeReason::Payload),
    }
}

/// The string an optional member may hold; absent and null both mean none.
pub open spec fn opt_str(ms: Seq<(Seq<char>, JsonV)>, key: Seq<char>) -> Result<
    Option<Seq<char>>,
    DecodeReason,
> {
    match obj_get(ms, key) {
        None => Ok(None),
        Some(JsonV::Null) => Ok(None),
        Some(JsonV::Str(c)) => Ok(Some(c)),
        Some(_) => Err(DecodeReason::Payload),
    }
}

/// The payload of a `Pong` envelope.
pub open spec fn pong_of(ms: Seq<(Seq<char>, JsonV)>) -> Result<ServerEventV, DecodeReason> {
    match obj_get(ms, "data"@) {
        Some(JsonV::Num(n)) => {
            if !n.neg && n.integral && all_digits(n.digits) && digits_val(n.digits) <= u32::MAX {
                Ok(ServerEventV::Pong { data: digits_val(n.digits) as u32 })
            } else {
                Err(DecodeReason::Payload)
            }
        },
        _ => Err(DecodeReason::Payload),
    }
}

/// The identifier a tagged error object names.
pub open spec fn error_id_body(ems: Seq<(Seq<char>, JsonV)>) -> Result<ErrorId, DecodeReason> {
    match req_str(ems, "type"@) {
        Ok(t) => match error_id_of(t) {
            Some(id) => Ok(id),
            None => Err(DecodeReason::Payload),
        },
        Err(reason) => Err(reason),
    }
}

/// The payload of an `Error` envelope: a nested tagged error identifier.
pub open spec fn error_of(ms: Seq<(Seq<char>, JsonV)>) -> Result<ServerEventV, DecodeReason> {
    match obj_get(ms, "error"@) {
        Some(JsonV::Obj(ems)) => match error_id_body(ems) {
            Ok(id) => Ok(ServerEventV::Error { error: id }),
            Err(reason) => Err(reason),
        },
        _ => Err(DecodeReason::Payload),
    }
}

/// The payload of a nested system-message object.
pub open spec fn system_of(sms: Seq<(Seq<char>, JsonV)>) -> Result<SystemMessageV, DecodeReason> {
    match req_str(sms, "type"@) {
        Err(reason) => Err(reason),
        Ok(t) => {
            if t == "text"@ {
                match req_str(sms, "content"@) {
                    Ok(content) => Ok(SystemMessageV::Text { content }),
                    Err(reason) => Err(reason),
                }
            } else if t == "user_added"@ {
                match (req_str(sms, "id"@), req_str(sms, "by"@)) {
                    (Ok(id), Ok(by)) => Ok(SystemMessageV::UserAdded { id, by }),
                    _ => Err(DecodeReason::Payload),
                }
            } else if t == "user_remove"@ {
                match (req_str(sms, "id"@), req_str(sms, "by"@)) {
                    (Ok(id), Ok(by)) => Ok(SystemMessageV::UserRemove { id, by }),
                    _ => Err(DecodeReason::Payload),
                }
            } else if t == "user_joined"@ {
                match req_str(sms, "id"@) {
                    Ok(id) => Ok(SystemMessageV::UserJoined { id }),
                    Err(reason) => Err(reason),
                }
            } else if t == "user_left"@ {
                match req_str(sms, "id"@) {
                    Ok(id) => Ok(SystemMessageV::UserLeft { id }),
                    Err(reason) => Err(reason),
                }
            } else if t == "user_kicked"@ {
                match req_str(sms, "id"@) {
                    Ok(id) => Ok(SystemMessageV::UserKicked { id }),
                    Err(reason) => Err(reason),
                }
            } else if t == "user_banned"@ {
                match req_str(sms, "id"@) {
                    Ok(id) => Ok(SystemMessageV::UserBanned { id }),
                    Err(reason) => Err(reason),
                }
            } else if t == "channel_renamed"@ {
                match (req_str(sms, "name"@), req_str(sms, "by"@)) {
                    (Ok(name), Ok(by)) => Ok(SystemMessageV::ChannelRenamed { name, by }),
                    _ => Err(DecodeReason::Payload),
                }
            } else if t == "channel_description_changed"@ {
                match req_str(sms, "by"@) {
                    Ok(by) => Ok(SystemMessageV::ChannelDescriptionChanged { by }),
                    Err(reason) => Err(reason),
                }
            } else if t == "channel_icon_changed"@ {
                match req_str(sms, "by"@) {
                    Ok(by) => Ok(SystemMessageV::ChannelIconChanged { by }),
                    Err(reason) => Err(reason),
                }
            } else {
                Err(DecodeReason::Payload)
            }
        },
    }
}

/// The payload of a `Message` envelope, whose fields sit in the envelope
/// itself.
pub open spec fn message_of(ms: Seq<(Seq<char>, JsonV)>) -> Result<ServerEventV, DecodeReason> {
    match req_str(ms, "channel"@) {
        Err(reason) => Err(reason),
        Ok(channel) => match opt_str(ms, "content"@) {
            Err(reason) => Err(reason),
            Ok(content) => match obj_get(ms, "system"@) {
                None => Ok(ServerEventV::Message { content, system: None, channel }),
                Some(JsonV::Null) => Ok(ServerEventV::Message { content, system: None, channel }),
                Some(JsonV::Obj(sms)) => match system_of(sms) {
                    Ok(sm) => Ok(ServerEventV::Message { content, system: Some(sm), channel }),
                    Err(reason) => Err(reason),
                },
                Some(_) => Err(DecodeReason::Payload),
            },
        },
    }
}

/// The event an envelope carries, or why it carries none.
pub open spec fn event_of_json(v: JsonV) -> Result<ServerEventV, DecodeReason> {
    match v {
        JsonV::Obj(ms) => match obj_get(ms, "type"@) {
            Some(JsonV::Str(t)) => {
                if t == "Authenticated"@ {
                    Ok(ServerEventV::Authenticated)
                } else if t == "Pong"@ {
                    pong_of(ms)
                } else if t == "Error"@ {
                    error_of(ms)
                } else if t == "Message"@ {
                    message_of(ms)
                } else {
                    Ok(ServerEventV::Unknown)
                }
            },
            Some(_) => Err(DecodeReason::Envelope),
            None => Err(DecodeReason::Envelope),
        },
        _ => Err(DecodeReason::Envelope),
    }
}

/// What decoding a frame yields: the event of its envelope, or the reason
/// none could be read.
pub open spec fn decode_spec(s: Seq<char>) -> Result<ServerEventV, DecodeReason> {
    match spec_parse_text(s) {
        None => Err(DecodeReason::Malformed),
        Some(v) => event_of_json(v),
    }
}

/// Whether a decode result is the one the spec assigns to the frame.
pub open spec fn decodes_to(s: Seq<char>, r: Result<ServerToClientEvent, GatewayError>) -> bool {
    match decode_spec(s) {
        Ok(se) => r matches Ok(ev) && server_event_v(ev) == se,
        Err(reason) => r == Result::<ServerToClientEvent, GatewayError>::Err(
            GatewayError::Decode { reason },
        ),
    }
}

proof fn digits_val_nonneg(ds: Seq<char>)
    requires
        all_digits(ds),
    ensures
        digits_val(ds) >= 0,
    decreases ds.len(),
{
    if ds.len() > 0 {
        assert(all_digits(ds.drop_last()));
        digits_val_nonneg(ds.drop_last());
    }
}

proof fn digits_val_mono(ds: Seq<char>, m: int)
    requires
        all_digits(ds),
        0 <= m <= ds.len(),
    ensures
        digits_val(ds.take(m)) <= digits_val(ds),
    decreases ds.len(),
{
    if m < ds.len() {
        assert(all_digits(ds.drop_last()));
        assert(ds.take(m) =~= ds.drop_last().take(m));
        digits_val_mono(ds.drop_last(), m);
        digits_val_nonneg(ds.drop_last());
    } else {
        assert(ds.take(m) =~= ds);
    }
}

/// The value of a digit run, if it is one and fits in a `u32`.
fn u32_of_digits(ds: &Vec<char>) -> (r: Option<u32>)
    ensures
        match r {
            Some(v) => all_digits(ds@) && digits_val(ds@) == v as int,
            None => !(all_digits(ds@) && digits_val(ds@) <= u32::MAX),
        },
{
    let mut acc: u32 = 0;
    let mut i: usize = 0;
    while i < ds.len()
        invariant
            0 <= i <= ds@.len(),
            all_digits(ds@.take(i as int)),
            acc as int == digits_val(ds@.take(i as int)),
        decreases ds@.len() - i,
    {
        let c = ds[i];
        if !(c >= '0' && c <= '9') {
            assert(!is_digit(ds@[i as int]));
            return None;
        }
        let d: u32 = c as u32 - 48;
        proof {
            assert(ds@.take(i + 1 as int).drop_last() =~= ds@.take(i as int));
            assert(ds@.take(i + 1 as int).last() == ds@[i as int]);
        }
        if acc > (u32::MAX - d) / 10 {
            proof {
                assert(acc * 10 + d > u32::MAX) by (nonlinear_arith)
                    requires
                        acc > (u32::MAX - d) / 10,
                        d < 10,
                ;
                if all_digits(ds@) {
                    digits_val_mono(ds@, i + 1);
                    assert(digits_val(ds@.take(i + 1 as int)) == acc * 10 + d);
                }
            }
            return None;
        }
        proof {
            assert(acc * 10 + d <= u32::MAX) by (nonlinear_arith)
                requires
                    acc <= (u32::MAX - d) / 10,
                    d < 10,
            ;
        }
        acc = acc * 10 + d;
        i = i + 1;
    }
    proof {
        assert(ds@.take(ds@.len() as int) =~= ds@);
    }
    Some(acc)
}

/// Decodes the `data` member of a `Pong` envelope.
fn decode_pong(ef: &EnvFields, ms: Ghost<Seq<(Seq<char>, JsonV)>>) -> (r: Result<
    ServerToClientEvent,
    GatewayError,
>)
    requires
        env_fields_ok(*ef, ms@),
    ensures
        match pong_of(ms@) {
            Ok(se) => r matches Ok(ev) && server_event_v(ev) == se,
            Err(reason) => r == Result::<ServerToClientEvent, GatewayError>::Err(
                GatewayError::Decode { reason },
            ),
        },
{
    match &ef.data {
        None => Err(GatewayError::Decode { reason: DecodeReason::Payload }),
        Some(di) => match &di.num_val {
            None => Err(GatewayError::Decode { reason: DecodeReason::Payload }),
            Some(n) => {
                if n.neg || !n.integral {
                    return Err(GatewayError::Decode { reason: DecodeReason::Payload });
                }
                match u32_of_digits(&n.digits) {
                    Some(v) => Ok(ServerToClientEvent::Pong { data: v }),
                    None => Err(GatewayError::Decode { reason: DecodeReason::Payload }),
                }
            },
        },
    }
}

/// Decodes a tagged error-identifier object.
fn decode_error_id(eef: &EnvFields, ems: Ghost<Seq<(Seq<char>, JsonV)>>) -> (r: Result<
    ErrorId,
    GatewayError,
>)
    requires
        env_fields_ok(*eef, ems@),
    ensures
        match error_id_body(ems@) {
            Ok(id) => r == Result::<ErrorId, GatewayError>::Ok(id),
            Err(reason) => r == Result::<ErrorId, GatewayError>::Err(
                GatewayError::Decode { reason },
            ),
        },
{
    let t = match &eef.tag {
        None => {
            return Err(GatewayError::Decode { reason: DecodeReason::Payload });
        },
        Some(ti) => match &ti.str_val {
            None => {
                return Err(GatewayError::Decode { reason: DecodeReason::Payload });
            },
            Some(t) => t,
        },
    };
    if chars_eq_str(t, "LabelMe") {
        Ok(ErrorId::LabelMe)
    } else if chars_eq_str(t, "InternalError") {
        Ok(ErrorId::InternalError)
    } else if chars_eq_str(t, "InvalidSenssion") {
        Ok(ErrorId::InvalidSenssion)
    } else if chars_eq_str(t, "OnboardingNotFinished") {
        Ok(ErrorId::OnboardingNotFinished)
    } else if chars_eq_str(t, "AlreadyAuthenticated") {
        Ok(ErrorId::AlreadyAuthenticated)
    } else {
        Err(GatewayError::Decode { reason: DecodeReason::Payload })
    }
}

/// Decodes the `error` member of an `Error` envelope.
fn decode_error(ef: &EnvFields, ms: Ghost<Seq<(Seq<char>, JsonV)>>) -> (r: Result<
    ServerToClientEvent,
    GatewayError,
>)
    requires
        env_fields_ok(*ef, ms@),
    ensures
        match error_of(ms@) {
            Ok(se) => r matches Ok(ev) && server_event_v(ev) == se,
            Err(reason) => r == Result::<ServerToClientEvent, GatewayError>::Err(
                GatewayError::Decode { reason },
            ),
        },
{
    match &ef.error {
        None => Err(GatewayError::Decode { reason: DecodeReason::Payload }),
        Some(ei) => match &ei.fields {
            None => Err(GatewayError::Decode { reason: DecodeReason::Payload }),
            Some(eef) => {
                let ghost ems = obj_get(ms@, "error"@)->Some_0->Obj_0;
                match decode_error_id(eef, Ghost(ems)) {
                    Ok(id) => Ok(ServerToClientEvent::Error { error: id }),
                    Err(e) => Err(e),
                }
            },
        },
    }
}

/// Decodes a nested system-message object.
fn decode_system(sf: &EnvFields, sms: Ghost<Seq<(Seq<char>, JsonV)>>) -> (r: Result<
    SystemMessage,
    GatewayError,
>)
    requires
        env_fields_ok(*sf, sms@),
    ensures
        match system_of(sms@) {
            Ok(sv) => r matches Ok(m) && system_v(m) == sv,
            Err(reason) => r == Result::<SystemMessage, GatewayError>::Err(
                GatewayError::Decode { reason },
            ),
        },
{
    let t = match &sf.tag {
        None => {
            return Err(GatewayError::Decode { reason: DecodeReason::Payload });
        },
        Some(ti) => match &ti.str_val {
            None => {
                return Err(GatewayError::Decode { reason: DecodeReason::Payload });
            },
            Some(t) => t,
        },
    };
    if chars_eq_str(t, "text") {
        match slot_string(&sf.content) {
            Some(content) => Ok(SystemMessage::Text { content }),
            None => Err(GatewayError::Decode { reason: DecodeReason::Payload }),
        }
    } else if chars_eq_str(t, "user_added") {
        match (slot_string(&sf.id), slot_string(&sf.by)) {
            (Some(id), Some(by)) => Ok(SystemMessage::UserAdded { id, by }),
            _ => Err(GatewayError::Decode { reason: DecodeReason::Payload }),
        }
    } else if chars_eq_str(t, "user_remove") {
        match (slot_string(&sf.id), slot_string(&sf.by)) {
            (Some(id), Some(by)) => Ok(SystemMessage::UserRemove { id, by }),
            _ => Err(GatewayError::Decode { reason: DecodeReason::Payload }),
        }
    } else if chars_eq_str(t, "user_joined") {
        match slot_string(&sf.id) {
            Some(id) => Ok(SystemMessage::UserJoined { id }),
            None => Err(GatewayError::Decode { reason: DecodeReason::Payload }),
        }
    } else if chars_eq_str(t, "user_left") {
        match slot_string(&sf.id) {
            Some(id) => Ok(SystemMessage::UserLeft { id }),
            None => Err(GatewayError::Decode { reason: DecodeReason::Payload }),
        }
    } else if chars_eq_str(t, "user_kicked") {
        match slot_string(&sf.id) {
            Some(id) => Ok(SystemMessage::UserKicked { id }),
            None => Err(GatewayError::Decode { reason: DecodeReason::Payload }),
        }
    } else if chars_eq_str(t, "user_banned") {
        match slot_string(&sf.id) {
            Some(id) => Ok(SystemMessage::UserBanned { id }),
            None => Err(GatewayError::Decode { reason: DecodeReason::Payload }),
        }
    } else if chars_eq_str(t, "channel_renamed") {
        match (slot_string(&sf.name), slot_string(&sf.by)) {
            (Some(name), Some(by)) => Ok(SystemMessage::ChannelRenamed { name, by }),
            _ => Err(GatewayError::Decode { reason: DecodeReason::Payload }),
        }
    } else if chars_eq_str(t, "channel_description_changed") {
        match slot_string(&sf.by) {
            Some(by) => Ok(SystemMessage::ChannelDescriptionChanged { by }),
            None => Err(GatewayError::Decode { reason: DecodeReason::Payload }),
        }
    } else if chars_eq_str(t, "channel_icon_changed") {
        match slot_string(&sf.by) {
            Some(by) => Ok(SystemMessage::ChannelIconChanged { by }),
            None => Err(GatewayError::Decode { reason: DecodeReason::Payload }),
        }
    } else {
        Err(GatewayError::Decode { reason: DecodeReason::Payload })
    }
}

/// The string a tracked slot holds, if it holds one.
fn slot_string(slot: &Option<Box<ValueInfo>>) -> (r: Option<String>)
    ensures
        match *slot {
            None => r is None,
            Some(b) => match b.str_val {
                Some(cs) => r matches Some(out) && out@ == cs@,
                None => r is None,
            },
        },
{
    match slot {
        None => None,
        Some(b) => match &b.str_val {
            Some(cs) => Some(string_of_chars(cs)),
            None => None,
        },
    }
}

/// Decodes the flattened fields of a `Message` envelope.
fn decode_message(ef: &EnvFields, ms: Ghost<Seq<(Seq<char>, JsonV)>>) -> (r: Result<
    ServerToClientEvent,
    GatewayError,
>)
    requires
        env_fields_ok(*ef, ms@),
    ensures
        match message_of(ms@) {
            Ok(se) => r matches Ok(ev) && server_event_v(ev) == se,
            Err(reason) => r == Result::<ServerToClientEvent, GatewayError>::Err(
                GatewayError::Decode { reason },
            ),
        },
{
    let channel = match slot_string(&ef.channel) {
        Some(c) => c,
        None => {
            return Err(GatewayError::Decode { reason: DecodeReason::Payload });
        },
    };
    let content = match &ef.content {
        None => None,
        Some(ci) => {
            if ci.is_null {
                None
            } else {
                match slot_string(&ef.content) {
                    Some(c) => Some(c),
                    None => {
                        return Err(GatewayError::Decode { reason: DecodeReason::Payload });
                    },
                }
            }
        },
    };
    let system = match &ef.system {
        None => None,
        Some(si) => {
            if si.is_null {
                None
            } else {
                match &si.fields {
                    Some(sf) => {
                        let ghost sms = obj_get(ms@, "system"@)->Some_0->Obj_0;
                        match decode_system(sf, Ghost(sms)) {
                            Ok(m) => Some(m),
                            Err(e) => {
                                return Err(e);
                            },
                        }
                    },
                    None => {
                        return Err(GatewayError::Decode { reason: DecodeReason::Payload });
                    },
                }
            }
        },
    };
    Ok(ServerToClientEvent::Message { message: Message { content, system, channel } })
}

/// Decodes one frame into the event its envelope carries.
pub fn decode(frame: &str) -> (r: Result<ServerToClientEvent, GatewayError>)
    ensures
        decodes_to(frame@, r),
{
    proof {
        reveal_with_fuel(info_ok, 3);
        reveal_with_fuel(crate::json::slot_ok, 3);
        reveal_with_fuel(env_fields_ok, 3);
    }
    let cs = chars_of(frame);
    let (info, gv) = match crate::json::parse_text(&cs) {
        None => {
            return Err(GatewayError::Decode { reason: DecodeReason::Malformed });
        },
        Some(p) => p,
    };
    let ef = match info.fields {
        None => {
            return Err(GatewayError::Decode { reason: DecodeReason::Envelope });
        },
        Some(ef) => ef,
    };
    let ghost ms = gv@->Obj_0;
    let t = match &ef.tag {
        None => {
            return Err(GatewayError::Decode { reason: DecodeReason::Envelope });
        },
        Some(ti) => match &ti.str_val {
            None => {
                return Err(GatewayError::Decode { reason: DecodeReason::Envelope });
            },
            Some(t) => t,
        },
    };
    if chars_eq_str(t, "Authenticated") {
        Ok(ServerToClientEvent::Authenticated)
    } else if chars_eq_str(t, "Pong") {
        decode_pong(&ef, Ghost(ms))
    } else if chars_eq_str(t, "Error") {
        decode_error(&ef, Ghost(ms))
    } else if chars_eq_str(t, "Message") {
        decode_message(&ef, Ghost(ms))
    } else {
        Ok(ServerToClientEvent::Unknown)
    }
}

/// The hexadecimal digit character for a value below sixteen.
pub open spec fn hex_char(v: int) -> char {
    if v < 10 {
        char_of(48 + v)
    } else {
        char_of(87 + v)
    }
}

/// How one character is written inside an encoded string literal.
pub open spec fn esc_char(c: char) -> Seq<char> {
    if c == '"' {
        seq!['\\', '"']
    } else if c == '\\' {
        seq!['\\', '\\']
    } else if (c as u32) < 0x20 {
        seq!['\\', 'u', '0', '0', hex_char((c as u32) as int / 16), hex_char((c as u32) as int % 16)]
    } else {
        seq![c]
    }
}

/// How a whole string is written inside an encoded string literal.
pub open spec fn esc(s: Seq<char>) -> Seq<char>
    decreases s.len(),
{
    if s.len() == 0 {
        Seq::empty()
    } else {
        esc_char(s[0]) + esc(s.drop_first())
    }
}

/// Escaping a concatenation escapes the parts.
pub proof fn esc_app(a: Seq<char>, b: Seq<char>)
    ensures
        esc(a + b) == esc(a) + esc(b),
    decreases a.len(),
{
    if a.len() == 0 {
        assert(a + b =~= b);
        assert(esc(a) + esc(b) =~= esc(b));
    } else {
        assert((a + b).drop_first() =~= a.drop_first() + b);
        assert((a + b)[0] == a[0]);
        esc_app(a.drop_first(), b);
        assert(esc_char(a[0]) + (esc(a.drop_first()) + esc(b)) =~= (esc_char(a[0]) + esc(
            a.drop_first(),
        )) + esc(b));
    }
}

/// The decimal digits of a non-negative number.
pub open spec fn dec_digits(n: int) -> Seq<char>
    decreases n,
{
    if n < 10 {
        seq![char_of(48 + n)]
    } else {
        dec_digits(n / 10) + seq![char_of(48 + n % 10)]
    }
}

/// A signed number in decimal.
pub open spec fn dec_i32(n: int) -> Seq<char> {
    if n < 0 {
        seq!['-'] + dec_digits(-n)
    } else {
        dec_digits(n)
    }
}

/// The frame text that carries a client event.
pub open spec fn encode_spec(e: ClientToServerEvent) -> Seq<char> {
    match e {
        ClientToServerEvent::Authenticate { token } => "{\"type\":\"Authenticate\",\"token\":\""@
            + esc(token@) + "\"}"@,
        ClientToServerEvent::Ping { data } => "{\"type\":\"Ping\",\"data\":"@ + dec_i32(data as int)
            + "}"@,
        ClientToServerEvent::BeginTyping { channel } => "{\"type\":\"BeginTyping\",\"channel\":\""@
            + esc(channel@) + "\"}"@,
        ClientToServerEvent::EndTyping { channel } => "{\"type\":\"EndTyping\",\"channel\":\""@
            + esc(channel@) + "\"}"@,
    }
}

/// The hexadecimal digit character for a value below sixteen.
fn hex_nibble(v: u32) -> (c: char)
    requires
        v < 16,
    ensures
        c == hex_char(v as int),
{
    let u = if v < 10 {
        48 + v
    } else {
        87 + v
    };
    let c = char::from_u32(u).unwrap();
    proof {
        vstd::utf8::char_u32_cast(c, u);
    }
    c
}

/// Appends the escaped form of a string.
#[verifier::loop_isolation(false)]
fn esc_append(out: &mut Vec<char>, s: &str)
    ensures
        final(out)@ == old(out)@ + esc(s@),
{
    let cs = chars_of(s);
    let n = cs.len();
    let mut i: usize = 0;
    while i < n
        invariant
            n == cs@.len(),
            cs@ == s@,
            i <= n,
            out@ == old(out)@ + esc(s@.take(i as int)),
        decreases n - i,
    {
        let c = cs[i];
        proof {
            reveal_with_fuel(esc, 3);
            assert(s@.take(i + 1 as int) =~= s@.take(i as int) + seq![s@[i as int]]);
            esc_app(s@.take(i as int), seq![s@[i as int]]);
            assert(seq![s@[i as int]].drop_first() =~= Seq::<char>::empty());
            assert(esc(seq![s@[i as int]]) =~= esc_char(s@[i as int]));
        }
        if c == '"' {
            out.push('\\');
            out.push('"');
        } else if c == '\\' {
            out.push('\\');
            out.push('\\');
        } else if (c as u32) < 0x20 {
            out.push('\\');
            out.push('u');
            out.push('0');
            out.push('0');
            out.push(hex_nibble((c as u32) / 16));
            out.push(hex_nibble((c as u32) % 16));
        } else {
            out.push(c);
        }
        proof {
            assert(out@ =~= old(out)@ + esc(s@.take(i + 1 as int)));
        }
        i = i + 1;
    }
    proof {
        assert(s@.take(n as int) =~= s@);
    }
}

/// Appends the decimal digits of a number.
fn push_u32_digits(out: &mut Vec<char>, n: u32)
    ensures
        final(out)@ == old(out)@ + dec_digits(n as int),
    decreases n,
{
    if n < 10 {
        let c = char::from_u32(48 + n).unwrap();
        proof {
            vstd::utf8::char_u32_cast(c, (48 + n) as u32);
            assert(old(out)@ + seq![char_of(48 + n as int)] =~= old(out)@.push(c));
        }
        out.push(c);
    } else {
        push_u32_digits(out, n / 10);
        let d = n % 10;
        let c = char::from_u32(48 + d).unwrap();
        proof {
            vstd::utf8::char_u32_cast(c, (48 + d) as u32);
        }
        out.push(c);
        proof {
            assert(out@ =~= old(out)@ + dec_digits(n as int));
        }
    }
}

/// Appends a signed number in decimal.
fn push_i32(out: &mut Vec<char>, n: i32)
    ensures
        final(out)@ == old(out)@ + dec_i32(n as int),
{
    if n < 0 {
        out.push('-');
        let m: i64 = n as i64;
        let mag: u32 = (-m) as u32;
        push_u32_digits(out, mag);
        proof {
            assert(out@ =~= old(out)@ + dec_i32(n as int));
        }
    } else {
        push_u32_digits(out, n as u32);
    }
}

/// Encodes a client event as frame text.  Encoding is total: it cannot
/// fail, and every event yields exactly the text [`encode_spec`] assigns.
pub fn encode(e: &ClientToServerEvent) -> (r: String)
    ensures
        r@ == encode_spec(*e),
{
    let mut out: Vec<char> = Vec::new();
    match e {
        ClientToServerEvent::Authenticate { token } => {
            push_chars(&mut out, "{\"type\":\"Authenticate\",\"token\":\"");
            esc_append(&mut out, token.as_str());
            push_chars(&mut out, "\"}");
            proof {
                assert(out@ =~= encode_spec(*e));
            }
        },
        ClientToServerEvent::Ping { data } => {
            push_chars(&mut out, "{\"type\":\"Ping\",\"data\":");
            push_i32(&mut out, *data);
            push_chars(&mut out, "}");
            proof {
                assert(out@ =~= encode_spec(*e));
            }
        },
        ClientToServerEvent::BeginTyping { channel } => {
            push_chars(&mut out, "{\"type\":\"BeginTyping\",\"channel\":\"");
            esc_append(&mut out, channel.as_str());
            push_chars(&mut out, "\"}");
            proof {
                assert(out@ =~= encode_spec(*e));
            }
        },
        ClientToServerEvent::EndTyping { channel } => {
            push_chars(&mut out, "{\"type\":\"EndTyping\",\"channel\":\"");
            esc_append(&mut out, channel.as_str());
            push_chars(&mut out, "\"}");
            proof {
                assert(out@ =~= encode_spec(*e));
            }
        },
    }
    string_of_chars(&out)
}

/// Unrecognized tags degrade to `Unknown`, never to an error: a frame that
/// parses as an envelope whose tag is a string outside the recognized set
/// always decodes to `Unknown`, so new server-side event kinds cannot abort
/// the stream.
pub proof fn lemma_unknown_tag(s: Seq<char>, ms: Seq<(Seq<char>, JsonV)>, t: Seq<char>)
    requires
        spec_parse_text(s) == Some(JsonV::Obj(ms)),
        obj_get(ms, "type"@) == Some(JsonV::Str(t)),
        t != "Authenticated"@,
        t != "Pong"@,
        t != "Error"@,
        t != "Message"@,
    ensures
        decode_spec(s) == Ok::<ServerEventV, DecodeReason>(ServerEventV::Unknown),
{
}

} // verus!
