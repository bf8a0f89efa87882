use guardnest_proxy::bytes::bytes_equal;
use guardnest_proxy::bytes::first_line;
use guardnest_proxy::bytes::split_lines;
use guardnest_proxy::bytes::tokenize;
use guardnest_proxy::bytes::trim_bytes;
use guardnest_proxy::request::find_host_header;
use guardnest_proxy::request::parse_request;
use guardnest_proxy::request::split_host;
use guardnest_proxy::request::Request;

#[test]
fn first_line_strips_cr() {
    let buf = b"CONNECT badsite.test:443 HTTP/1.1\r\nHost: badsite.test\r\n\r\n";
    assert_eq!(first_line(buf), b"CONNECT badsite.test:443 HTTP/1.1".to_vec());
}

#[test]
fn first_line_of_single_line() {
    assert_eq!(first_line(b"CONNECT a:1 HTTP/1.1"), b"CONNECT a:1 HTTP/1.1".to_vec());
    assert_eq!(first_line(b""), Vec::<u8>::new());
}

#[test]
fn tokenize_request_line() {
    let toks = tokenize(b"CONNECT badsite.test:443 HTTP/1.1");
    assert_eq!(
        toks,
        vec![
            b"CONNECT".to_vec(),
            b"badsite.test:443".to_vec(),
            b"HTTP/1.1".to_vec()
        ]
    );
}

#[test]
fn tokenize_collapses_whitespace_runs() {
    let toks = tokenize(b"  GET\t\t/  HTTP/1.0  ");
    assert_eq!(toks, vec![b"GET".to_vec(), b"/".to_vec(), b"HTTP/1.0".to_vec()]);
}

#[test]
fn tokenize_empty_line() {
    assert_eq!(tokenize(b""), Vec::<Vec<u8>>::new());
    assert_eq!(tokenize(b"   \t "), Vec::<Vec<u8>>::new());
}

#[test]
fn split_lines_handles_crlf_and_final_newline() {
    let ls = split_lines(b"a\r\nbb\nccc\n");
    assert_eq!(ls, vec![b"a".to_vec(), b"bb".to_vec(), b"ccc".to_vec()]);
    let ls2 = split_lines(b"a\n\nb");
    assert_eq!(ls2, vec![b"a".to_vec(), b"".to_vec(), b"b".to_vec()]);
}

#[test]
fn trim_bytes_both_ends() {
    assert_eq!(trim_bytes(b"  host \t"), b"host".to_vec());
    assert_eq!(trim_bytes(b"host"), b"host".to_vec());
    assert_eq!(trim_bytes(b" \t "), Vec::<u8>::new());
}

#[test]
fn bytes_equal_cases() {
    assert!(bytes_equal(b"abc", b"abc"));
    assert!(!bytes_equal(b"abc", b"abd"));
    assert!(!bytes_equal(b"abc", b"ab"));
    assert!(bytes_equal(b"", b""));
}

#[test]
fn split_host_takes_part_before_colon() {
    assert_eq!(split_host(b"badsite.test:443"), b"badsite.test".to_vec());
    assert_eq!(split_host(b"nocolon"), b"nocolon".to_vec());
    assert_eq!(split_host(b":443"), Vec::<u8>::new());
}

#[test]
fn parse_connect_request() {
    let req = parse_request(b"CONNECT badsite.test:443 HTTP/1.1\r\n\r\n");
    match req {
        Request::Connect { target, host } => {
            assert_eq!(target, b"badsite.test:443".to_vec());
            assert_eq!(host, b"badsite.test".to_vec());
        }
        other => panic!("expected a CONNECT, got {:?}", other),
    }
}

#[test]
fn parse_connect_is_case_sensitive() {
    let req = parse_request(b"connect badsite.test:443 HTTP/1.1\r\n\r\n");
    assert!(matches!(req, Request::Other { .. }));
}

#[test]
fn parse_get_request_finds_host_header() {
    let req = parse_request(b"GET / HTTP/1.1\r\nHost: example.org\r\n\r\n");
    match req {
        Request::Other { host } => assert_eq!(host, Some(b"example.org".to_vec())),
        other => panic!("expected a plain request, got {:?}", other),
    }
}

#[test]
fn parse_host_header_key_is_case_insensitive() {
    let req = parse_request(b"GET / HTTP/1.1\r\nAccept: */*\r\nhOsT:  example.org \r\n\r\n");
    match req {
        Request::Other { host } => assert_eq!(host, Some(b"example.org".to_vec())),
        other => panic!("expected a plain request, got {:?}", other),
    }
}

#[test]
fn parse_without_host_header() {
    let req = parse_request(b"GET / HTTP/1.1\r\nAccept: */*\r\n\r\n");
    match req {
        Request::Other { host } => assert_eq!(host, None),
        other => panic!("expected a plain request, got {:?}", other),
    }
}

#[test]
fn parse_short_line_is_unsupported() {
    assert!(matches!(parse_request(b"CONNECT\r\n\r\n"), Request::Unsupported));
    assert!(matches!(parse_request(b"GET /\r\n\r\n"), Request::Unsupported));
    assert!(matches!(parse_request(b""), Request::Unsupported));
}

#[test]
fn find_host_header_takes_first_match() {
    let v = find_host_header(b"GET / HTTP/1.1\r\nHost: first.example\r\nHost: second.example\r\n");
    assert_eq!(v, Some(b"first.example".to_vec()));
    assert_eq!(find_host_header(b"GET / HTTP/1.1\r\nAccept: x\r\n"), None);
}
