use skin_trader::api::ws::{default_channels, is_auth_action, parse_message, Channel, MessageType, WsAction};

#[test]
fn wire_names() {
    assert_eq!(WsAction::WsAuth.as_str(), "WS_AUTH");
    assert_eq!(WsAction::WsAuthApikey.as_str(), "WS_AUTH_APIKEY");
    assert_eq!(WsAction::WsDeauth.as_str(), "WS_DEAUTH");
    assert_eq!(WsAction::WsSub.as_str(), "WS_SUB");
    assert_eq!(WsAction::WsUnsub.as_str(), "WS_UNSUB");
    assert_eq!(WsAction::WsUnsubAll.as_str(), "WS_UNSUB_ALL");
    assert_eq!(Channel::PriceChanged.name(), "price_changed");
    assert_eq!(Channel::DelistedOrSold.name(), "delisted_or_sold");
    assert_eq!(default_channels().map(|c| c.name()), ["listed", "price_changed", "delisted_or_sold", "extra_info"]);
}

#[test]
fn messages_are_routed() {
    assert_eq!(parse_message(Some(2), Some(WsAction::WsAuthApikey), None), MessageType::WsAuthApikey);
    assert_eq!(parse_message(Some(2), None, Some(Channel::Listed)), MessageType::ChannelMessage(Channel::Listed));
    assert_eq!(parse_message(Some(1), Some(WsAction::WsAuthApikey), None), MessageType::Invalid);
    assert_eq!(parse_message(None, None, Some(Channel::Listed)), MessageType::Invalid);
    assert_eq!(parse_message(Some(3), Some(WsAction::WsSub), None), MessageType::Invalid);
    assert_eq!(MessageType::from_value(Some(WsAction::WsAuthApikey), Some(Channel::Listed)), MessageType::WsAuthApikey);
}

#[test]
fn auth_replies() {
    assert!(is_auth_action("WS_AUTH"));
    assert!(is_auth_action("WS_AUTH_APIKEY"));
    assert!(!is_auth_action("WS_SUB"));
    assert!(!is_auth_action(""));
}
