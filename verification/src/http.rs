//! The HTTP responder: a connection classified as plain HTTP receives one
//! fixed `HTTP/1.1 200 OK` response carrying a self-contained viewer page,
//! and is then closed. The page opens a WebSocket back to the same host and
//! port, draws each received binary message onto a canvas, and shows a
//! rolling FPS / latency readout.
//!
//! Everything here is pure computation over strings; writing the response
//! to the socket happens outside the library.
use vstd::prelude::*;

use vstd::string::StrSliceExecFns;
use vstd::string::StringExecFns;
use vstd::utf8::encode_utf8;

verus! {

/// The character standing for the decimal digit `d`.
pub open spec fn dec_digit_char(d: int) -> char {
    if d == 0 {
        '0'
    } else if d == 1 {
        '1'
    } else if d == 2 {
        '2'
    } else if d == 3 {
        '3'
    } else if d == 4 {
        '4'
    } else if d == 5 {
        '5'
    } else if d == 6 {
        '6'
    } else if d == 7 {
        '7'
    } else if d == 8 {
        '8'
    } else {
        '9'
    }
}

/// The usual decimal rendering of `n`, most significant digit first and
/// without leading zeroes (`0` renders as `0`).
pub open spec fn dec_digits(n: nat) -> Seq<char>
    decreases n,
{
    if n < 10 {
        seq![dec_digit_char(n as int)]
    } else {
        dec_digits(n / 10) + seq![dec_digit_char((n % 10) as int)]
    }
}

/// Append the single decimal digit `d` to `out`.
fn append_digit(out: &mut String, d: u64)
    requires
        d < 10,
    ensures
        final(out)@ == old(out)@ + seq![dec_digit_char(d as int)],
{
    proof {
        reveal_strlit("0");
        reveal_strlit("1");
        reveal_strlit("2");
        reveal_strlit("3");
        reveal_strlit("4");
        reveal_strlit("5");
        reveal_strlit("6");
        reveal_strlit("7");
        reveal_strlit("8");
        reveal_strlit("9");
        assert("0"@ =~= seq![dec_digit_char(0)]);
        assert("1"@ =~= seq![dec_digit_char(1)]);
        assert("2"@ =~= seq![dec_digit_char(2)]);
        assert("3"@ =~= seq![dec_digit_char(3)]);
        assert("4"@ =~= seq![dec_digit_char(4)]);
        assert("5"@ =~= seq![dec_digit_char(5)]);
        assert("6"@ =~= seq![dec_digit_char(6)]);
        assert("7"@ =~= seq![dec_digit_char(7)]);
        assert("8"@ =~= seq![dec_digit_char(8)]);
        assert("9"@ =~= seq![dec_digit_char(9)]);
    }
    if d == 0 {
        out.append("0");
    } else if d == 1 {
        out.append("1");
    } else if d == 2 {
        out.append("2");
    } else if d == 3 {
        out.append("3");
    } else if d == 4 {
        out.append("4");
    } else if d == 5 {
        out.append("5");
    } else if d == 6 {
        out.append("6");
    } else if d == 7 {
        out.append("7");
    } else if d == 8 {
        out.append("8");
    } else {
        out.append("9");
    }
}

/// Append the decimal rendering of `n` to `out`.
pub fn append_dec(out: &mut String, n: u64)
    ensures
        final(out)@ == old(out)@ + dec_digits(n as nat),
    decreases n,
{
    if n < 10 {
        append_digit(out, n);
    } else {
        append_dec(out, n / 10);
        append_digit(out, n % 10);
        proof {
            assert(out@ =~= old(out)@ + dec_digits(n as nat));
        }
    }
}

/// The decimal rendering of `n` on its own.
pub fn dec_string(n: u64) -> (r: String)
    ensures
        r@ == dec_digits(n as nat),
{
    let mut out = String::new();
    append_dec(&mut out, n);
    proof {
        assert(out@ =~= dec_digits(n as nat));
    }
    out
}

/// The full HTTP response for a body whose UTF-8 encoding is
/// `encode_utf8(body)`: a `200 OK` status line, the HTML content type, an
/// exact `Content-Length` counting the body's bytes, `Connection: close`,
/// and then the body itself.
pub open spec fn http_response_spec(body: Seq<char>) -> Seq<char> {
    "HTTP/1.1 200 OK\r\n"@ + "Content-Type: text/html; charset=utf-8"@
        + "\r\nContent-Length: "@ + dec_digits(encode_utf8(body).len()) + "\r\nConnection: close\r\n\r\n"@
        + body
}

/// Opening of the viewer page, up to its title.
pub open spec fn viewer_page_head() -> Seq<char> {
    "<!DOCTYPE html>
<html>
<head>
    <meta charset=\"UTF-8\">
    <title>"@
}

/// The title shown by the viewer page, in its `<title>` and its heading.
pub open spec fn viewer_page_title() -> Seq<char> {
    "WebSocket Screen Stream"@
}

/// Middle of the viewer page: its style sheet, between title and heading.
pub open spec fn viewer_page_style() -> Seq<char> {
    "</title>
    <style>
        body {
            margin: 0;
            padding: 20px;
            background: #1a1a1a;
            color: #fff;
            font-family: Arial, sans-serif;
            display: flex;
            flex-direction: column;
            align-items: center;
            justify-content: center;
            min-height: 100vh;
        }
        h1 {
            margin-bottom: 20px;
        }
        canvas {
            max-width: 90vw;
            max-height: 80vh;
            border: 2px solid #333;
            border-radius: 8px;
            background: #000;
        }
        .info {
            margin-top: 20px;
            padding: 15px;
            background: #2a2a2a;
            border-radius: 8px;
            text-align: center;
        }
        .status {
            color: #4caf50;
            font-weight: bold;
        }
        .error {
            color: #f44336;
        }
    </style>
</head>
<body>
    <h1>"@
}

/// Tail of the viewer page: the canvas, the status readout, and the script
/// that opens a WebSocket back to the same host and port, draws each binary
/// message onto the canvas, and keeps a rolling FPS / latency readout.
pub open spec fn viewer_page_script() -> Seq<char> {
    "</h1>
    <canvas id=\"stream\"></canvas>
    <div class=\"info\">
        <div id=\"status\" class=\"status\">Connecting...</div>
        <p id=\"fps\">FPS: 0 | Latency: 0ms</p>
    </div>
    <script>
        const canvas = document.getElementById('stream');
        const ctx = canvas.getContext('2d');
        const statusDiv = document.getElementById('status');
        const fpsDisplay = document.getElementById('fps');

        let frameCount = 0;
        let fps = 0;
        let lastUpdate = Date.now();
        let lastFrameTime = Date.now();

        const ws = new WebSocket('ws://' + window.location.host);
        ws.binaryType = 'arraybuffer';

        ws.onopen = function() {
            console.log('WebSocket connected');
            statusDiv.textContent = 'Live';
            statusDiv.className = 'status';
        };

        ws.onmessage = function(event) {
            const now = Date.now();
            const latency = now - lastFrameTime;
            lastFrameTime = now;

            const blob = new Blob([event.data], { type: 'image/jpeg' });
            const url = URL.createObjectURL(blob);

            const img = new Image();
            img.onload = function() {
                if (canvas.width === 0) {
                    canvas.width = img.width;
                    canvas.height = img.height;
                }

                ctx.drawImage(img, 0, 0);
                URL.revokeObjectURL(url);

                frameCount++;
                if (now - lastUpdate >= 1000) {
                    fps = frameCount;
                    fpsDisplay.textContent = `FPS: ${fps} | Latency: ${latency}ms`;
                    frameCount = 0;
                    lastUpdate = now;
                }
            };
            img.src = url;
        };

        ws.onerror = function(error) {
            console.error('WebSocket error:', error);
            statusDiv.textContent = 'Error';
            statusDiv.className = 'error';
        };

        ws.onclose = function() {
            console.log('WebSocket disconnected');
            statusDiv.textContent = 'Disconnected';
            statusDiv.className = 'error';
        };
    </script>
</body>
</html>"@
}

/// The whole viewer page: head, title, style sheet, heading (the title
/// again), then canvas and script.
pub open spec fn viewer_page_spec() -> Seq<char> {
    viewer_page_head() + viewer_page_title() + viewer_page_style() + viewer_page_title()
        + viewer_page_script()
}

/// The self-contained viewer page served on the HTTP path.
pub fn viewer_page() -> (page: String)
    ensures
        page@ == viewer_page_spec(),
{
    let mut page = String::from_str(
        "<!DOCTYPE html>
<html>
<head>
    <meta charset=\"UTF-8\">
    <title>",
    );
    page.append("WebSocket Screen Stream");
    page.append(
        "</title>
    <style>
        body {
            margin: 0;
            padding: 20px;
            background: #1a1a1a;
            color: #fff;
            font-family: Arial, sans-serif;
            display: flex;
            flex-direction: column;
            align-items: center;
            justify-content: center;
            min-height: 100vh;
        }
        h1 {
            margin-bottom: 20px;
        }
        canvas {
            max-width: 90vw;
            max-height: 80vh;
            border: 2px solid #333;
            border-radius: 8px;
            background: #000;
        }
        .info {
            margin-top: 20px;
            padding: 15px;
            background: #2a2a2a;
            border-radius: 8px;
            text-align: center;
        }
        .status {
            color: #4caf50;
            font-weight: bold;
        }
        .error {
            color: #f44336;
        }
    </style>
</head>
<body>
    <h1>",
    );
    page.append("WebSocket Screen Stream");
    page.append(
        "</h1>
    <canvas id=\"stream\"></canvas>
    <div class=\"info\">
        <div id=\"status\" class=\"status\">Connecting...</div>
        <p id=\"fps\">FPS: 0 | Latency: 0ms</p>
    </div>
    <script>
        const canvas = document.getElementById('stream');
        const ctx = canvas.getContext('2d');
        const statusDiv = document.getElementById('status');
        const fpsDisplay = document.getElementById('fps');

        let frameCount = 0;
        let fps = 0;
        let lastUpdate = Date.now();
        let lastFrameTime = Date.now();

        const ws = new WebSocket('ws://' + window.location.host);
        ws.binaryType = 'arraybuffer';

        ws.onopen = function() {
            console.log('WebSocket connected');
            statusDiv.textContent = 'Live';
            statusDiv.className = 'status';
        };

        ws.onmessage = function(event) {
            const now = Date.now();
            const latency = now - lastFrameTime;
            lastFrameTime = now;

            const blob = new Blob([event.data], { type: 'image/jpeg' });
            const url = URL.createObjectURL(blob);

            const img = new Image();
            img.onload = function() {
                if (canvas.width === 0) {
                    canvas.width = img.width;
                    canvas.height = img.height;
                }

                ctx.drawImage(img, 0, 0);
                URL.revokeObjectURL(url);

                frameCount++;
                if (now - lastUpdate >= 1000) {
                    fps = frameCount;
                    fpsDisplay.textContent = `FPS: ${fps} | Latency: ${latency}ms`;
                    frameCount = 0;
                    lastUpdate = now;
                }
            };
            img.src = url;
        };

        ws.onerror = function(error) {
            console.error('WebSocket error:', error);
            statusDiv.textContent = 'Error';
            statusDiv.className = 'error';
        };

        ws.onclose = function() {
            console.log('WebSocket disconnected');
            statusDiv.textContent = 'Disconnected';
            statusDiv.className = 'error';
        };
    </script>
</body>
</html>",
    );
    proof {
        assert(page@ =~= viewer_page_spec());
    }
    page
}

/// The one response that the HTTP path writes before closing: the fixed
/// `200 OK` response whose body is the viewer page.
pub fn viewer_response() -> (r: String)
    ensures
        r@ == http_response_spec(viewer_page_spec()),
{
    let page = viewer_page();
    build_http_response(page.as_str())
}

/// `needle` occurs contiguously somewhere in `hay`.
pub open spec fn contains_chars(hay: Seq<char>, needle: Seq<char>) -> bool {
    exists|i: int|
        0 <= i && i + needle.len() <= hay.len() && #[trigger] hay.subrange(i, i + needle.len())
            == needle
}

/// The viewer page contains its title, `WebSocket Screen Stream`, as a
/// literal substring.
pub proof fn lemma_viewer_page_has_title()
    ensures
        contains_chars(viewer_page_spec(), viewer_page_title()),
{
    let i = viewer_page_head().len() as int;
    let t = viewer_page_title();
    assert(viewer_page_spec().subrange(i, i + t.len()) =~= t);
}

/// Every response starts with the fixed `HTTP/1.1 200 OK` status line.
pub proof fn lemma_response_starts_with_status(body: Seq<char>)
    ensures
        http_response_spec(body).subrange(0, "HTTP/1.1 200 OK\r\n"@.len() as int) == "HTTP/1.1 200 OK\r\n"@,
{
    assert(http_response_spec(body).subrange(0, "HTTP/1.1 200 OK\r\n"@.len() as int)
        =~= "HTTP/1.1 200 OK\r\n"@);
}

/// Every response declares the HTML content type.
pub proof fn lemma_response_has_content_type(body: Seq<char>)
    ensures
        contains_chars(http_response_spec(body), "Content-Type: text/html; charset=utf-8"@),
{
    let i = "HTTP/1.1 200 OK\r\n"@.len() as int;
    let t = "Content-Type: text/html; charset=utf-8"@;
    assert(http_response_spec(body).subrange(i, i + t.len()) =~= t);
}

/// Every response ends with its body: what follows the blank line after the
/// headers is exactly the body whose length the headers declare.
pub proof fn lemma_response_ends_with_body(body: Seq<char>)
    ensures
        http_response_spec(body).subrange(
            http_response_spec(body).len() - body.len(),
            http_response_spec(body).len() as int,
        ) == body,
{
    assert(http_response_spec(body).subrange(
        http_response_spec(body).len() - body.len(),
        http_response_spec(body).len() as int,
    ) =~= body);
}

/// Build the one fixed HTTP response served to every connection classified
/// as plain HTTP: status `200 OK`, `text/html` content type, an exact
/// `Content-Length`, `Connection: close`, then the body.
pub fn build_http_response(body: &str) -> (r: String)
    ensures
        r@ == http_response_spec(body@),
{
    let blen = body.as_bytes().len();
    let mut r = String::from_str("HTTP/1.1 200 OK\r\n");
    r.append("Content-Type: text/html; charset=utf-8");
    r.append("\r\nContent-Length: ");
    append_dec(&mut r, blen as u64);
    r.append("\r\nConnection: close\r\n\r\n");
    r.append(body);
    proof {
        assert(r@ =~= http_response_spec(body@));
    }
    r
}

} // verus!
