use mail_report::derived::attachment_summary;
use mail_report::mail::Mail;

fn two_part_message() -> &'static [u8] {
    b"From: \"A\" <a@corp.example>\r\nContent-Type: multipart/mixed; boundary=\"XYZ\"\r\n\r\n--XYZ\r\nContent-Type: text/plain\r\n\r\nhello body\r\n--XYZ\r\nContent-Type: application/pdf\r\nContent-Disposition: attachment; filename=x.pdf\r\n\r\ndata\r\n--XYZ--\r\n"
}

#[test]
fn two_parts_one_attachment() {
    let mail = Mail::new("in.eml".to_string());
    let (_headers, part_headers, bodies) = mail.parse(two_part_message()).unwrap();
    assert_eq!(part_headers.len(), 2);
    assert_eq!(bodies.len(), 2);
    let (has, count) = attachment_summary(&part_headers);
    assert!(has);
    assert_eq!(count, 1);
}

#[test]
fn top_level_headers_are_folded() {
    let mail = Mail::new("in.eml".to_string());
    let (headers, _parts, _bodies) = mail.parse(two_part_message()).unwrap();
    assert_eq!(headers.get("From"), "\"A\" <a@corp.example>");
    assert_eq!(headers.get("Subject"), "NA");
}

#[test]
fn duplicate_header_keeps_last_value() {
    let raw = b"Subject: first\r\nSubject: second\r\n\r\nbody\r\n";
    let mail = Mail::new("in.eml".to_string());
    let (headers, _parts, _bodies) = mail.parse(raw).unwrap();
    assert_eq!(headers.get("Subject"), "second");
}

#[test]
fn failed_body_decode_shrinks_body_list_only() {
    let raw = b"From: x@y.example\r\nContent-Type: multipart/mixed; boundary=\"B\"\r\n\r\n--B\r\nContent-Type: text/plain\r\n\r\nfirst body\r\n--B\r\nContent-Type: text/plain\r\nContent-Transfer-Encoding: base64\r\n\r\n####\r\n--B\r\nContent-Type: text/plain\r\n\r\nthird body\r\n--B--\r\n";
    let mail = Mail::new("in.eml".to_string());
    let (_headers, part_headers, bodies) = mail.parse(raw).unwrap();
    assert_eq!(part_headers.len(), 3);
    assert_eq!(bodies.len(), 2);
    assert_eq!(bodies[0], "first body");
    assert_eq!(bodies[1], "third body");
}

#[test]
fn part_headers_are_per_part_maps() {
    let (_headers, part_headers, _bodies) = Mail::new(String::new())
        .parse(two_part_message())
        .unwrap();
    assert_eq!(part_headers[0].get("Content-Type"), "text/plain");
    assert_eq!(part_headers[0].get("Content-Disposition"), "NA");
    assert_eq!(part_headers[1].get("Content-Disposition"), "attachment; filename=x.pdf");
}

#[test]
fn undecodable_message_yields_none() {
    let mail = Mail::new("in.eml".to_string());
    assert!(mail.parse(b" Overhanging: line\r\n\r\nbody").is_none());
}

#[test]
fn simple_message_has_no_parts() {
    let mail = Mail::new("in.eml".to_string());
    let (headers, part_headers, bodies) = mail
        .parse(b"Subject: test\r\n\r\nThis is the body")
        .unwrap();
    assert_eq!(headers.get("Subject"), "test");
    assert_eq!(part_headers.len(), 0);
    assert_eq!(bodies.len(), 0);
}
