use bytes::BytesMut;
use ua4f::http::{
    check_is_in_whitelist, find_user_agent, is_http_request, modify_user_agent,
    rewrite_user_agent, RewriteSkipped, UserAgentSpan, CARRIAGE_RETURN, MAX_USER_AGENT_LEN,
};

fn rewritten(input: &[u8], user_agent: &str) -> Vec<u8> {
    let mut buf = BytesMut::from(input);
    modify_user_agent(&mut buf, user_agent);
    buf.to_vec()
}

#[test]
fn every_method_token_is_a_request() {
    let methods = ["GET", "POST", "PUT", "PATCH", "HEAD", "DELETE", "TRACE", "OPTIONS", "CONNECT"];
    for method in methods {
        let bare = format!("{} ", method);
        assert!(is_http_request(bare.as_bytes()), "{}", method);
        let line = format!("{} /index.html HTTP/1.1\r\n", method);
        assert!(is_http_request(line.as_bytes()), "{}", method);
    }
}

#[test]
fn method_without_space_is_no_request() {
    assert!(!is_http_request(b"GET"));
    assert!(!is_http_request(b"GET/"));
    assert!(!is_http_request(b"GETX / HTTP/1.1"));
    assert!(!is_http_request(b"CONNECT"));
    assert!(!is_http_request(b"OPTIONS"));
}

#[test]
fn short_buffers_are_no_request() {
    assert!(!is_http_request(b""));
    assert!(!is_http_request(b"G"));
    assert!(!is_http_request(b"GE"));
    assert!(!is_http_request(b"PU"));
}

#[test]
fn other_protocols_are_no_request() {
    assert!(!is_http_request(b"get / HTTP/1.1\r\n"));
    assert!(!is_http_request(b" GET / HTTP/1.1\r\n"));
    assert!(!is_http_request(&[0x16, 0x03, 0x01, 0x02, 0x00, 0x01, 0x00]));
    assert!(!is_http_request(b"SSH-2.0-OpenSSH_9.6\r\n"));
    assert!(!is_http_request(b"BREW /pot HTCPCP/1.0\r\n"));
}

#[test]
fn classification_leaves_the_buffer_alone() {
    let buf = b"POST /submit HTTP/1.1\r\n".to_vec();
    let copy = buf.clone();
    assert!(is_http_request(&buf));
    assert_eq!(buf, copy);
}

#[test]
fn user_agent_value_is_replaced() {
    let input = b"GET / HTTP/1.1\r\nUser-Agent: OldAgent/1.0\r\nHost: x\r\n\r\n";
    let output = rewritten(input, "NewUA");
    assert_eq!(output, b"GET / HTTP/1.1\r\nUser-Agent: NewUA\r\nHost: x\r\n\r\n".to_vec());
    let text = String::from_utf8(output.clone()).unwrap();
    assert_eq!(text.matches("User-Agent: NewUA\r\n").count(), 1);
    assert!(text.ends_with("\r\nHost: x\r\n\r\n"));
    assert_eq!(&output[..16], &input[..16]);
}

#[test]
fn longer_replacement_shifts_the_rest() {
    let input = b"GET / HTTP/1.1\r\nHost: x\r\nUser-Agent: a\r\nAccept: */*\r\n\r\nbody";
    let output = rewritten(input, "Mozilla/5.0 (X11; Linux x86_64)");
    assert_eq!(
        output,
        b"GET / HTTP/1.1\r\nHost: x\r\nUser-Agent: Mozilla/5.0 (X11; Linux x86_64)\r\nAccept: */*\r\n\r\nbody"
            .to_vec()
    );
    assert_eq!(output.len(), input.len() - 1 + 31);
}

#[test]
fn empty_value_and_empty_replacement() {
    assert_eq!(rewritten(b"GET / HTTP/1.1\r\nUser-Agent: \r\n\r\n", "X"), b"GET / HTTP/1.1\r\nUser-Agent: X\r\n\r\n".to_vec());
    assert_eq!(rewritten(b"GET / HTTP/1.1\r\nUser-Agent: abc\r\n\r\n", ""), b"GET / HTTP/1.1\r\nUser-Agent: \r\n\r\n".to_vec());
}

#[test]
fn only_the_first_header_is_replaced() {
    let input = b"GET / HTTP/1.1\r\nUser-Agent: one\r\nUser-Agent: two\r\n\r\n";
    assert_eq!(
        rewritten(input, "N"),
        b"GET / HTTP/1.1\r\nUser-Agent: N\r\nUser-Agent: two\r\n\r\n".to_vec()
    );
}

#[test]
fn value_without_carriage_return_runs_to_the_end() {
    let input = b"GET / HTTP/1.1\r\nUser-Agent: Trunca";
    assert_eq!(find_user_agent(input), Some(UserAgentSpan { start: 28, end: 34 }));
    assert_eq!(rewritten(input, "NewUA"), b"GET / HTTP/1.1\r\nUser-Agent: NewUA".to_vec());
}

#[test]
fn whitelisted_value_is_kept() {
    let values = [
        "MicroMessenger Client",
        "ByteDancePcdn",
        "Go-http-client/1.1",
        "Bilibili Freedoooooom/MarkII",
        "micromessenger client",
        "BYTEDANCEPCDN",
        "go-HTTP-client/1.1",
        "bilibili freedoooooom/markii",
    ];
    for value in values {
        let input = format!("GET / HTTP/1.1\r\nUser-Agent: {}\r\nHost: x\r\n\r\n", value);
        assert_eq!(rewritten(input.as_bytes(), "NewUA"), input.as_bytes().to_vec(), "{}", value);
        assert!(check_is_in_whitelist(value.as_bytes()), "{}", value);
    }
}

#[test]
fn whitelist_matches_the_whole_value_only() {
    assert!(!check_is_in_whitelist(b""));
    assert!(!check_is_in_whitelist(b"ByteDancePcdn/2"));
    assert!(!check_is_in_whitelist(b"xByteDancePcdn"));
    assert!(!check_is_in_whitelist(b"Go-http-client/1.0"));
    assert!(!check_is_in_whitelist(b"Go-http-client/1.1 "));
    assert!(!check_is_in_whitelist(b"MicroMessenger_Client"));
    assert!(!check_is_in_whitelist(b"Mozilla/5.0"));
    let input = b"GET / HTTP/1.1\r\nUser-Agent: ByteDancePcdn/2\r\n\r\n";
    assert_eq!(rewritten(input, "N"), b"GET / HTTP/1.1\r\nUser-Agent: N\r\n\r\n".to_vec());
}

#[test]
fn whitelist_ignores_the_case_of_letters_only() {
    // These bytes differ from '-', '/' and '.' by the bit that tells 'A' from
    // 'a', but are no letters.
    assert!(!check_is_in_whitelist(b"Go\rhttp-client/1.1"));
    assert!(!check_is_in_whitelist(b"Go-http-client\x0f1.1"));
    assert!(!check_is_in_whitelist(b"Go-http-client/1\x0e1"));
    assert!(check_is_in_whitelist(b"gO-HTTP-CLIENT/1.1"));
}

#[test]
fn oversized_value_is_kept() {
    for len in [1025usize, 1026, 4000] {
        let value = "a".repeat(len);
        let input = format!("GET / HTTP/1.1\r\nUser-Agent: {}\r\nHost: x\r\n\r\n", value);
        assert_eq!(rewritten(input.as_bytes(), "NewUA"), input.as_bytes().to_vec(), "{}", len);
    }
}

#[test]
fn value_at_the_ceiling_is_replaced() {
    assert_eq!(MAX_USER_AGENT_LEN, 1024);
    let value = "a".repeat(1024);
    let input = format!("GET / HTTP/1.1\r\nUser-Agent: {}\r\nHost: x\r\n\r\n", value);
    assert_eq!(
        rewritten(input.as_bytes(), "NewUA"),
        b"GET / HTTP/1.1\r\nUser-Agent: NewUA\r\nHost: x\r\n\r\n".to_vec()
    );
}

#[test]
fn buffer_without_header_is_kept() {
    let inputs: [&[u8]; 6] = [
        b"",
        b"GET / HTTP/1.1\r\nHost: x\r\n\r\n",
        b"GET / HTTP/1.1\r\nuser-agent: lower\r\n\r\n",
        b"GET / HTTP/1.1\r\nUser-Agent:nospace\r\n\r\n",
        b"GET / HTTP/1.1\r\nUser-Agent",
        b"User-Agent:",
    ];
    for input in inputs {
        assert_eq!(rewritten(input, "NewUA"), input.to_vec());
        assert_eq!(find_user_agent(input), None);
    }
}

#[test]
fn span_lies_behind_the_first_header_name() {
    let input = b"GET / HTTP/1.1\r\nUser-Agent: OldAgent/1.0\r\nHost: x\r\n\r\n";
    let span = find_user_agent(input).unwrap();
    assert_eq!(span, UserAgentSpan { start: 28, end: 40 });
    assert_eq!(&input[span.start..span.end], b"OldAgent/1.0");
    assert_eq!(find_user_agent(b"User-Agent: \r"), Some(UserAgentSpan { start: 12, end: 12 }));
    assert_eq!(find_user_agent(b"User-Agent: "), Some(UserAgentSpan { start: 12, end: 12 }));
    assert_eq!(find_user_agent(b"\rUser-Agent: x\ny\r"), Some(UserAgentSpan { start: 13, end: 16 }));
}

#[test]
fn buffer_is_rewritten_in_place() {
    let mut buf = BytesMut::from(&b"HEAD / HTTP/1.1\r\nUser-Agent: curl/8.0\r\n\r\n"[..]);
    modify_user_agent(&mut buf, "NewUA");
    assert_eq!(&buf[..], b"HEAD / HTTP/1.1\r\nUser-Agent: NewUA\r\n\r\n");
    modify_user_agent(&mut buf, "Other/2");
    assert_eq!(&buf[..], b"HEAD / HTTP/1.1\r\nUser-Agent: Other/2\r\n\r\n");
    buf.extend_from_slice(b"tail");
    assert_eq!(&buf[..], b"HEAD / HTTP/1.1\r\nUser-Agent: Other/2\r\n\r\ntail");
}

#[test]
fn value_ends_at_the_carriage_return() {
    assert_eq!(CARRIAGE_RETURN, b'\r');
    assert_eq!(
        rewritten(b"GET / HTTP/1.1\r\nUser-Agent: a\nb\rc\r\n", "N"),
        b"GET / HTTP/1.1\r\nUser-Agent: N\rc\r\n".to_vec()
    );
}

#[test]
fn replacement_may_hold_any_text() {
    assert_eq!(
        rewritten(b"GET / HTTP/1.1\r\nUser-Agent: a\r\n\r\n", "Agent/\u{e9}"),
        b"GET / HTTP/1.1\r\nUser-Agent: Agent/\xc3\xa9\r\n\r\n".to_vec()
    );
}

#[test]
fn skipped_rewrites_give_their_reason() {
    assert_eq!(
        rewrite_user_agent(b"GET / HTTP/1.1\r\nHost: x\r\n\r\n", b"N"),
        Err(RewriteSkipped::HeaderAbsent)
    );
    assert_eq!(rewrite_user_agent(b"", b"N"), Err(RewriteSkipped::HeaderAbsent));
    assert_eq!(
        rewrite_user_agent(b"GET / HTTP/1.1\r\nUser-Agent: bytedancepcdn\r\n\r\n", b"N"),
        Err(RewriteSkipped::Whitelisted)
    );
    let long = format!("GET / HTTP/1.1\r\nUser-Agent: {}\r\n\r\n", "z".repeat(1025));
    assert_eq!(rewrite_user_agent(long.as_bytes(), b"N"), Err(RewriteSkipped::Oversized));
    assert_eq!(
        rewrite_user_agent(b"GET / HTTP/1.1\r\nUser-Agent: curl\r\n\r\n", b"N"),
        Ok(b"GET / HTTP/1.1\r\nUser-Agent: N\r\n\r\n".to_vec())
    );
    assert_eq!(
        rewrite_user_agent(b"GET / HTTP/1.1\r\nUser-Agent: N\r\n\r\n", b"N"),
        Ok(b"GET / HTTP/1.1\r\nUser-Agent: N\r\n\r\n".to_vec())
    );
}
