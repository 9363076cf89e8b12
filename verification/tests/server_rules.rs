use workpool::content::build_response;
use workpool::content::decimal_string;
use workpool::content::delay_seconds;
use workpool::content::handle_file_type;
use workpool::content::route_for_request;
use workpool::content::status_line;
use workpool::content::target_file;
use workpool::content::Route;

#[test]
fn known_extensions_get_their_content_type() {
    assert_eq!(handle_file_type("index.html"), "text/html");
    assert_eq!(handle_file_type("index.xml"), "text/xml");
    assert_eq!(handle_file_type("response.json"), "application/json");
    assert_eq!(handle_file_type("404.html"), "text/html");
}

#[test]
fn unknown_extensions_fall_back_to_plain_text() {
    assert_eq!(handle_file_type("notes.txt"), "text/plain");
    assert_eq!(handle_file_type("archive.tar.gz"), "text/plain");
    assert_eq!(handle_file_type("trailing."), "text/plain");
    assert_eq!(handle_file_type(""), "text/plain");
}

#[test]
fn only_the_last_segment_counts() {
    assert_eq!(handle_file_type("page.html.bak"), "text/plain");
    assert_eq!(handle_file_type("data.xml.json"), "application/json");
    assert_eq!(handle_file_type("html"), "text/html");
}

#[test]
fn request_lines_select_their_routes() {
    assert_eq!(route_for_request("GET / HTTP/1.1"), Route::Index);
    assert_eq!(route_for_request("GET /sleep HTTP/1.1"), Route::Sleep);
    assert_eq!(route_for_request("GET /xml HTTP/1.1"), Route::Xml);
    assert_eq!(route_for_request("GET /xml_error HTTP/1.1"), Route::XmlError);
    assert_eq!(route_for_request("GET /api HTTP/1.1"), Route::Api);
    assert_eq!(route_for_request("GET /missing HTTP/1.1"), Route::NotFound);
    assert_eq!(route_for_request(""), Route::NotFound);
}

#[test]
fn numbers_are_written_in_decimal() {
    assert_eq!(decimal_string(0), "0");
    assert_eq!(decimal_string(7), "7");
    assert_eq!(decimal_string(10), "10");
    assert_eq!(decimal_string(105), "105");
    assert_eq!(decimal_string(65536), "65536");
}

#[test]
fn the_response_carries_headers_and_contents() {
    let r = build_response("HTTP/1.1 200 OK", "text/html", "<p>hello</p>");
    assert_eq!(
        r,
        "HTTP/1.1 200 OK\r\nContent-Type: text/html\r\nContent-Length: 12\r\nAuthorization: Bearer admin\r\n\r\n<p>hello</p>"
    );
}

#[test]
fn the_length_header_counts_bytes_not_characters() {
    let r = build_response("HTTP/1.1 200 OK", "text/plain", "héllo");
    assert_eq!(
        r,
        "HTTP/1.1 200 OK\r\nContent-Type: text/plain\r\nContent-Length: 6\r\nAuthorization: Bearer admin\r\n\r\nhéllo"
    );
}

#[test]
fn routes_map_to_status_file_and_delay() {
    assert_eq!(status_line(Route::Index), "HTTP/1.1 200 OK");
    assert_eq!(status_line(Route::NotFound), "HTTP/1.1 404 NOT FOUND");
    assert_eq!(target_file(Route::Index), "index.html");
    assert_eq!(target_file(Route::Sleep), "response.json");
    assert_eq!(target_file(Route::Xml), "index.xml");
    assert_eq!(target_file(Route::XmlError), "error.xml");
    assert_eq!(target_file(Route::Api), "response.json");
    assert_eq!(target_file(Route::NotFound), "404.html");
    assert_eq!(delay_seconds(Route::Sleep), 5);
    assert_eq!(delay_seconds(Route::Index), 0);
    assert_eq!(delay_seconds(Route::NotFound), 0);
}
