use rhenite::codec::WireFrame;
use rhenite::CloseCode;
use rhenite::CloseFrame;
use rhenite::ConnectError;
use rhenite::Message;
use rhenite::SendMessageError;
use rhenite::SessionContext;
use rhenite::SocketHandle;
use rhenite::SocketOptions;

const TEST_PEM: &str = "-----BEGIN CERTIFICATE-----
MIIBtjCCAVugAwIBAgITBmyf1XSXNmY/Owua2eiedgPySjAKBggqhkjOPQQDAjA5
MQswCQYDVQQGEwJVUzEPMA0GA1UEChMGQW1hem9uMRkwFwYDVQQDExBBbWF6b24g
Um9vdCBDQSAzMB4XDTE1MDUyNjAwMDAwMFoXDTQwMDUyNjAwMDAwMFowOTELMAkG
A1UEBhMCVVMxDzANBgNVBAoTBkFtYXpvbjEZMBcGA1UEAxMQQW1hem9uIFJvb3Qg
Q0EgMzBZMBMGByqGSM49AgEGCCqGSM49AwEHA0IABCmXp8ZBf8ANm+gBG1bG8lKl
ui2yEujSLtf6ycXYqm0fc4E7O5hrOXwzpcVOho6AF2hiRVd9RFgdszflZwjrZt6j
QjBAMA8GA1UdEwEB/wQFMAMBAf8wDgYDVR0PAQH/BAQDAgGGMB0GA1UdDgQWBBSr
ttvXBp43rDCGB5Fwx5zEGbF4wDAKBggqhkjOPQQDAgNJADBGAiEA4IWSoxe3jfkr
BqWTrBqYaGFy+uGh0PsceGCmQ5nFuMQCIQCcAu/xlJyzlvnrxir4tiz+OpAUFteM
YyRIHN8wfdVoOw==
-----END CERTIFICATE-----
";

const TEST_DER: &[u8] = &[
    48, 130, 1, 182, 48, 130, 1, 91, 160, 3, 2, 1, 2, 2, 19, 6, 108, 159, 213, 116, 151, 54, 102,
    63, 59, 11, 154, 217, 232, 158, 118, 3, 242, 74, 48, 10, 6, 8, 42, 134, 72, 206, 61, 4, 3, 2,
    48, 57, 49, 11, 48, 9, 6, 3, 85, 4, 6, 19, 2, 85, 83, 49, 15, 48, 13, 6, 3, 85, 4, 10, 19, 6,
    65, 109, 97, 122, 111, 110, 49, 25, 48, 23, 6, 3, 85, 4, 3, 19, 16, 65, 109, 97, 122, 111,
    110, 32, 82, 111, 111, 116, 32, 67, 65, 32, 51, 48, 30, 23, 13, 49, 53, 48, 53, 50, 54, 48,
    48, 48, 48, 48, 48, 90, 23, 13, 52, 48, 48, 53, 50, 54, 48, 48, 48, 48, 48, 48, 90, 48, 57,
    49, 11, 48, 9, 6, 3, 85, 4, 6, 19, 2, 85, 83, 49, 15, 48, 13, 6, 3, 85, 4, 10, 19, 6, 65, 109,
    97, 122, 111, 110, 49, 25, 48, 23, 6, 3, 85, 4, 3, 19, 16, 65, 109, 97, 122, 111, 110, 32, 82,
    111, 111, 116, 32, 67, 65, 32, 51, 48, 89, 48, 19, 6, 7, 42, 134, 72, 206, 61, 2, 1, 6, 8, 42,
    134, 72, 206, 61, 3, 1, 7, 3, 66, 0, 4, 41, 151, 167, 198, 65, 127, 192, 13, 155, 232, 1, 27,
    86, 198, 242, 82, 165, 186, 45, 178, 18, 232, 210, 46, 215, 250, 201, 197, 216, 170, 109, 31,
    115, 129, 59, 59, 152, 107, 57, 124, 51, 165, 197, 78, 134, 142, 128, 23, 104, 98, 69, 87,
    125, 68, 88, 29, 179, 55, 229, 103, 8, 235, 102, 222, 163, 66, 48, 64, 48, 15, 6, 3, 85, 29,
    19, 1, 1, 255, 4, 5, 48, 3, 1, 1, 255, 48, 14, 6, 3, 85, 29, 15, 1, 1, 255, 4, 4, 3, 2, 1,
    134, 48, 29, 6, 3, 85, 29, 14, 4, 22, 4, 20, 171, 182, 219, 215, 6, 158, 55, 172, 48, 134, 7,
    145, 112, 199, 156, 196, 25, 177, 120, 192, 48, 10, 6, 8, 42, 134, 72, 206, 61, 4, 3, 2, 3,
    73, 0, 48, 70, 2, 33, 0, 224, 133, 146, 163, 23, 183, 141, 249, 43, 6, 165, 147, 172, 26, 152,
    104, 97, 114, 250, 225, 161, 208, 251, 28, 120, 96, 166, 67, 153, 197, 184, 196, 2, 33, 0,
    156, 2, 239, 241, 148, 156, 179, 150, 249, 235, 198, 42, 248, 182, 44, 254, 58, 144, 20, 22,
    215, 140, 99, 36, 72, 28, 223, 48, 125, 213, 104, 59,
];

#[test]
fn create_certificate_from_valid_pem() {
    let mut ctx = SessionContext::new();
    let handle = ctx.create_certificate_from_pem(TEST_PEM.as_bytes());
    assert!(handle.is_ok());
}

#[test]
fn create_certificate_from_invalid_pem_fails() {
    let mut ctx = SessionContext::new();
    let result = ctx.create_certificate_from_pem(b"this is not a certificate");
    let err = result.err().unwrap();
    assert!(!err.message.is_empty());
}

#[test]
fn create_certificate_from_valid_der() {
    let mut ctx = SessionContext::new();
    let handle = ctx.create_certificate_from_der(TEST_DER);
    assert!(handle.is_ok());
}

#[test]
fn create_certificate_from_invalid_der_fails() {
    let mut ctx = SessionContext::new();
    assert!(ctx.create_certificate_from_der(&[1u8, 2, 3]).is_err());
}

#[test]
fn certificate_handles_are_distinct() {
    let mut ctx = SessionContext::new();
    let a = ctx.create_certificate_from_pem(TEST_PEM.as_bytes()).unwrap();
    let b = ctx.create_certificate_from_pem(TEST_PEM.as_bytes()).unwrap();
    assert_ne!(a, b);
}

#[test]
fn unknown_trust_anchor_handles_are_skipped() {
    let mut ctx = SessionContext::new();
    let valid = ctx.create_certificate_from_pem(TEST_PEM.as_bytes()).unwrap();
    let unknown = rhenite::CertificateHandle::from_id(valid.id() + 1000);
    let opts = SocketOptions::builder()
        .uri("wss://example.com/chat".to_string())
        .add_root_certificate(valid)
        .add_root_certificate(unknown)
        .build();
    let plan = ctx.prepare_connection(opts).unwrap();
    assert_eq!(plan.anchors.len(), 1);
}

#[test]
fn malformed_uri_is_rejected() {
    let ctx = SessionContext::new();
    let opts = SocketOptions::new("not a uri at all".to_string());
    let err = ctx.prepare_connection(opts).err().unwrap();
    assert_eq!(err, ConnectError::InvalidUri("not a uri at all".to_string()));
}

#[test]
fn malformed_header_name_is_rejected() {
    let ctx = SessionContext::new();
    let opts = SocketOptions::builder()
        .uri("wss://example.com/chat".to_string())
        .header("bad header".to_string(), "value".to_string())
        .build();
    let err = ctx.prepare_connection(opts).err().unwrap();
    assert_eq!(err, ConnectError::InvalidHeaderName("bad header".to_string()));
}

#[test]
fn malformed_header_value_is_rejected() {
    let ctx = SessionContext::new();
    let opts = SocketOptions::builder()
        .uri("wss://example.com/chat".to_string())
        .header("x-note".to_string(), "bad\nvalue".to_string())
        .build();
    let err = ctx.prepare_connection(opts).err().unwrap();
    assert_eq!(
        err,
        ConnectError::InvalidHeaderValue("bad\nvalue".to_string())
    );
}

#[test]
fn send_to_unknown_handle_fails() {
    let ctx = SessionContext::new();
    let bogus = SocketHandle::from_id(424242);
    let result = ctx.send_message_to_socket(bogus, Message::Text("hi".to_string()));
    assert_eq!(result, Err(SendMessageError::UnknownHandle));
}

#[test]
fn send_reaches_registered_queue() {
    let mut ctx = SessionContext::new();
    let (tx, mut rx) = tokio::sync::mpsc::unbounded_channel::<Message>();
    let handle = ctx.register_socket(tx);
    let result = ctx.send_message_to_socket(handle, Message::Text("ping".to_string()));
    assert_eq!(result, Ok(()));
    assert_eq!(rx.try_recv().unwrap(), Message::Text("ping".to_string()));
}

#[test]
fn send_preserves_order() {
    let mut ctx = SessionContext::new();
    let (tx, mut rx) = tokio::sync::mpsc::unbounded_channel::<Message>();
    let handle = ctx.register_socket(tx);
    let m1 = Message::Text("one".to_string());
    let m2 = Message::Binary(vec![2u8]);
    let m3 = Message::Ping(vec![3u8]);
    assert_eq!(ctx.send_message_to_socket(handle, m1.clone()), Ok(()));
    assert_eq!(ctx.send_message_to_socket(handle, m2.clone()), Ok(()));
    assert_eq!(ctx.send_message_to_socket(handle, m3.clone()), Ok(()));
    assert_eq!(rx.try_recv().unwrap(), m1);
    assert_eq!(rx.try_recv().unwrap(), m2);
    assert_eq!(rx.try_recv().unwrap(), m3);
}

#[test]
fn send_after_receiver_dropped_fails() {
    let mut ctx = SessionContext::new();
    let (tx, rx) = tokio::sync::mpsc::unbounded_channel::<Message>();
    let handle = ctx.register_socket(tx);
    drop(rx);
    let result = ctx.send_message_to_socket(handle, Message::Text("hi".to_string()));
    assert_eq!(result, Err(SendMessageError::ChannelClosed));
}

#[test]
fn unregistered_socket_is_unknown() {
    let mut ctx = SessionContext::new();
    let (tx, _rx) = tokio::sync::mpsc::unbounded_channel::<Message>();
    let handle = ctx.register_socket(tx);
    assert!(ctx.unregister_socket(handle));
    assert!(!ctx.unregister_socket(handle));
    assert_eq!(
        ctx.send_message_to_socket(handle, Message::Text("hi".to_string())),
        Err(SendMessageError::UnknownHandle)
    );
}

#[test]
fn socket_handles_are_distinct() {
    let mut ctx = SessionContext::new();
    let (tx1, _rx1) = tokio::sync::mpsc::unbounded_channel::<Message>();
    let (tx2, _rx2) = tokio::sync::mpsc::unbounded_channel::<Message>();
    let a = ctx.register_socket(tx1);
    let b = ctx.register_socket(tx2);
    assert_ne!(a.id(), b.id());
}

#[test]
fn close_with_reason_enqueues_close_frame() {
    let mut ctx = SessionContext::new();
    let (tx, mut rx) = tokio::sync::mpsc::unbounded_channel::<Message>();
    let handle = ctx.register_socket(tx);
    let result = ctx.close_with_reason(handle, CloseCode(1000), "bye".to_string());
    assert_eq!(result, Ok(()));
    assert_eq!(
        rx.try_recv().unwrap(),
        Message::Close(Some(CloseFrame {
            code: CloseCode(1000),
            reason: "bye".to_string(),
        }))
    );
}

#[test]
fn close_enqueues_empty_close() {
    let mut ctx = SessionContext::new();
    let (tx, mut rx) = tokio::sync::mpsc::unbounded_channel::<Message>();
    let handle = ctx.register_socket(tx);
    assert_eq!(ctx.close(handle), Ok(()));
    assert_eq!(rx.try_recv().unwrap(), Message::Close(None));
}

#[test]
fn event_name_is_prefix_plus_decimal_id() {
    let handle = SocketHandle::from_id(7);
    assert_eq!(handle.event_name(), "__rhenite_socket/7");
    let handle = SocketHandle::from_id(1234567890);
    assert_eq!(handle.event_name(), "__rhenite_socket/1234567890");
    let handle = SocketHandle::from_id(0);
    assert_eq!(handle.event_name(), "__rhenite_socket/0");
}

#[test]
fn inbound_text_becomes_event_with_message() {
    let handle = SocketHandle::from_id(3);
    let result = rhenite::socket::inbound_event(handle, WireFrame::Text("ping".to_string()));
    let (event, message) = result.unwrap();
    assert_eq!(event, "__rhenite_socket/3");
    assert_eq!(message, Message::Text("ping".to_string()));
}

#[test]
fn inbound_missing_close_frame_maps_to_close_none() {
    let handle = SocketHandle::from_id(4);
    let (_, message) = rhenite::socket::inbound_event(handle, WireFrame::Close(None)).unwrap();
    assert_eq!(message, Message::Close(None));
}

#[test]
fn inbound_raw_frame_is_an_error() {
    let handle = SocketHandle::from_id(5);
    assert!(rhenite::socket::inbound_event(handle, WireFrame::Raw).is_err());
}
