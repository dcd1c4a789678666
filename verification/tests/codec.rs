use chat_relay::envelope::{decode_client, decode_envelope, Envelope, ProtocolError};
use chat_relay::records::{Mounts, Records};

#[test]
fn encode_produces_documented_shape() {
    let env = Envelope {
        record: Records::JoinedQueue,
        queue: String::from("42"),
        data: String::from("{\"data\":\"You joined the queue\",\"code\":200}"),
    };
    assert_eq!(
        env.encode(),
        "{\"record\":\"msg_g2c_joined_queue\",\"queue\":\"42\",\"data\":{\"data\":\"You joined the queue\",\"code\":200}}"
    );
}

#[test]
fn encode_then_decode_round_trips() {
    let cases = vec![
        (Records::Message, "chat:7", "{\"text\":\"hi\"}"),
        (Records::JoinedQueue, "42", "{\"code\":200}"),
        (Records::LeftQueue, "chat:42", "null"),
        (Records::RateLimit, "", "{\"code\":429}"),
        (Records::ParticipantJoined, "chat:1", "{\"user\":3}"),
        (Records::ParticipantLeft, "chat:1", "{\"user\":3}"),
    ];
    for (record, queue, data) in cases {
        let env = Envelope {
            record,
            queue: String::from(queue),
            data: String::from(data),
        };
        let back = decode_envelope(&env.encode()).expect("round trip decodes");
        assert_eq!(back.record, record);
        assert_eq!(back.queue, queue);
        assert_eq!(back.data, data);
    }
}

#[test]
fn decode_envelope_rejects_garbage() {
    assert!(decode_envelope("not json at all").is_none());
    assert!(decode_envelope("").is_none());
    assert!(decode_envelope("{\"record\":\"msg_g2c_send_message\"}").is_none());
    assert!(decode_envelope("{\"record\":\"no_such_record\",\"queue\":\"1\",\"data\":1}").is_none());
}

#[test]
fn decode_client_subscribe_frame() {
    let req = decode_client("{\"record\":\"msg_c2g_subscribe_queue\",\"mount\":\"chat\",\"queue\":\"42\"}")
        .expect("frame decodes");
    assert_eq!(req.record, Records::JoinedQueue);
    assert_eq!(req.mount, Mounts::Chat);
    assert_eq!(req.queue, "42");
}

#[test]
fn decode_client_unsubscribe_frame_with_data() {
    let req = decode_client(
        "{\"record\":\"msg_c2g_unsubscribe_queue\",\"mount\":\"user\",\"queue\":\"\",\"data\":{\"x\":1}}",
    )
    .expect("frame decodes");
    assert_eq!(req.record, Records::LeftQueue);
    assert_eq!(req.mount, Mounts::User);
    assert_eq!(req.queue, "");
}

#[test]
fn decode_client_reports_each_error() {
    assert!(matches!(decode_client("nonsense"), Err(ProtocolError::Malformed)));
    assert!(matches!(
        decode_client("{\"record\":\"msg_c2g_resubscribe\",\"mount\":\"chat\",\"queue\":\"1\"}"),
        Err(ProtocolError::UnknownRecord)
    ));
    assert!(matches!(
        decode_client("{\"record\":\"msg_c2g_subscribe_queue\",\"mount\":\"rooms\",\"queue\":\"1\"}"),
        Err(ProtocolError::UnknownMount)
    ));
    assert!(matches!(
        decode_client("{\"record\":\"msg_c2g_subscribe_queue\",\"mount\":\"chat\",\"queue\":\"1\""),
        Err(ProtocolError::Malformed)
    ));
}

#[test]
fn decode_client_accepts_server_record_names() {
    let req = decode_client("{\"record\":\"msg_g2c_send_message\",\"mount\":\"chat\",\"queue\":\"5\"}")
        .expect("frame decodes");
    assert_eq!(req.record, Records::Message);
}
