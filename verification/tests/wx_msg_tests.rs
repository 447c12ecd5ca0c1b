use bottle_zoa::wx_msg::{
    build_text_msg, parse_msg, parse_msg_checked, read_inbound, text_msg_at, text_msg_at_reading, Handling, MsgFault,
};

#[test]
fn test_parse_msg() {
    let msg = "<xml><ToUserName><![CDATA[gh_c61fe67016df]]></ToUserName>\n<FromUserName><![CDATA[oZVaUxFWzZtiZowApVrlQzT7CRjw]]></FromUserName>\n<CreateTime>1606870657</CreateTime>\n<MsgType><![CDATA[text]]></MsgType>\n<Content><![CDATA[哈哈]]></Content>\n<MsgId>23004855674080303</MsgId>\n</xml>";
    let map = parse_msg(msg);
    println!("map: {:?}", map.as_ref().map(|m| m.len()));
    let map = map.expect("the sample message parses");
    assert_eq!(map.len(), 6);
    assert_eq!(map.get("ToUserName").unwrap(), "gh_c61fe67016df");
    assert_eq!(map.get("FromUserName").unwrap(), "oZVaUxFWzZtiZowApVrlQzT7CRjw");
    assert_eq!(map.get("CreateTime").unwrap(), "1606870657");
    assert_eq!(map.get("MsgType").unwrap(), "text");
    assert_eq!(map.get("Content").unwrap(), "哈哈");
    assert_eq!(map.get("MsgId").unwrap(), "23004855674080303");
    assert!(map.get("xml").is_none());
}

#[test]
fn empty_message_has_no_fields() {
    assert!(parse_msg("").is_none());
    assert!(matches!(parse_msg_checked(""), Ok(None)));
}

#[test]
fn malformed_message_has_no_fields() {
    assert!(parse_msg("<xml><A>x</B></xml>").is_none());
    assert!(parse_msg("not xml at all <").is_none());
}

#[test]
fn later_text_for_a_tag_replaces_earlier() {
    let map = parse_msg("<xml><A>1</A><A>2</A><B>3</B></xml>").unwrap();
    assert_eq!(map.get("A").unwrap(), "2");
    assert_eq!(map.get("B").unwrap(), "3");
    assert_eq!(map.len(), 2);
}

#[test]
fn text_goes_to_innermost_waiting_tag() {
    let map = parse_msg("<xml><Outer><Inner>v</Inner></Outer></xml>").unwrap();
    assert_eq!(map.get("Inner").unwrap(), "v");
    assert!(map.get("Outer").is_none());
    let map = parse_msg("<xml><Empty></Empty><Next>w</Next></xml>").unwrap();
    assert_eq!(map.get("Next").unwrap(), "w");
    assert!(map.get("Empty").is_none());
}

#[test]
fn untagged_text_is_reported() {
    let r = parse_msg_checked("<xml>a<![CDATA[x]]>c</xml>");
    assert!(matches!(r, Err(MsgFault::UntaggedText)));
    let r = parse_msg_checked("<xml><A>1</A></xml>");
    assert_eq!(r.ok().unwrap().unwrap().get("A").unwrap(), "1");
}

#[test]
fn reply_xml_has_exact_layout() {
    let xml = text_msg_at(&"gh_account".to_string(), &"user_1".to_string(), "你好".to_string(), 1606870657123);
    assert_eq!(
        xml,
        "<xml>\n    <ToUserName>user_1</ToUserName>\n    <FromUserName>gh_account</FromUserName>\n    <MsgType>text</MsgType>\n    <Content>你好</Content>\n    <CreateTime>1606870657123</CreateTime>\n    </xml>"
    );
}

#[test]
fn built_reply_is_stamped_now() {
    let xml = build_text_msg(&"gh".to_string(), &"u".to_string(), "c".to_string()).unwrap();
    assert!(xml.starts_with("<xml>\n    <ToUserName>u</ToUserName>\n    <FromUserName>gh</FromUserName>"));
    let start = xml.find("<CreateTime>").unwrap() + "<CreateTime>".len();
    let end = xml.find("</CreateTime>").unwrap();
    let millis: u128 = xml[start..end].parse().unwrap();
    assert!(millis > 1_600_000_000_000);
}

#[test]
fn inbound_fields_are_picked_out() {
    let map = parse_msg("<xml><ToUserName>acct</ToUserName><FromUserName>openid</FromUserName><MsgType>text</MsgType><Content>年假</Content></xml>").unwrap();
    let inbound = read_inbound(&map);
    assert_eq!(inbound.account, "acct");
    assert_eq!(inbound.sender, "openid");
    assert_eq!(inbound.content, "年假");
    assert!(inbound.is_text());
    let map = parse_msg("<xml><ToUserName>a</ToUserName><FromUserName>b</FromUserName><MsgType>event</MsgType><Content>x</Content></xml>").unwrap();
    assert!(!read_inbound(&map).is_text());
}

#[test]
fn reply_for_a_clock_reading() {
    let xml = text_msg_at_reading(&"gh".to_string(), &"u".to_string(), "c".to_string(), Some((1606870657, 123_456_789))).unwrap();
    assert!(xml.contains("<CreateTime>1606870657123</CreateTime>"));
    assert!(text_msg_at_reading(&"gh".to_string(), &"u".to_string(), "c".to_string(), None).is_none());
}

#[test]
fn inbound_reply_goes_back_to_the_sender() {
    let map = parse_msg("<xml><ToUserName>acct</ToUserName><FromUserName>openid</FromUserName><MsgType>text</MsgType><Content>x</Content></xml>").unwrap();
    let inbound = read_inbound(&map);
    let xml = inbound.reply_at("answer".to_string(), Some((1, 2_000_000))).unwrap();
    assert_eq!(
        xml,
        "<xml>\n    <ToUserName>openid</ToUserName>\n    <FromUserName>acct</FromUserName>\n    <MsgType>text</MsgType>\n    <Content>answer</Content>\n    <CreateTime>1002</CreateTime>\n    </xml>"
    );
    assert!(inbound.reply("answer".to_string()).unwrap().starts_with("<xml>\n    <ToUserName>openid</ToUserName>"));
}

#[test]
fn only_text_messages_run_the_dialog() {
    let map = parse_msg("<xml><ToUserName>a</ToUserName><FromUserName>openid</FromUserName><MsgType>text</MsgType><Content>年假</Content></xml>").unwrap();
    match read_inbound(&map).handling() {
        Handling::Run(dialog, action) => {
            assert_eq!(dialog.open_id, "openid");
            assert_eq!(dialog.command, "年假");
            assert!(matches!(action, bottle_zoa::commands::Action::LoadUser(id) if id == "openid"));
        }
        Handling::Answer(_) => panic!("a text message runs the dialog"),
    }
    let map = parse_msg("<xml><ToUserName>a</ToUserName><FromUserName>openid</FromUserName><MsgType>event</MsgType><Content>x</Content></xml>").unwrap();
    assert!(matches!(read_inbound(&map).handling(), Handling::Answer(c) if c.is_empty()));
}
