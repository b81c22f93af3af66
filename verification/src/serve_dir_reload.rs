//! The HTML injection middleware: which requests get the reload script, and
//! where in the page it goes.
//!
//! The middleware never touches the file system or the network itself. It is
//! driven by [`html_reload_injection`]: the host reports what it has found
//! as an [`InjectionEvent`] and carries out the [`InjectionAction`] it gets
//! back, until the action is to forward the request or to send a response.

use vstd::prelude::*;
use vstd::string::*;
use crate::path::{extension_of, join_path, joined_path, path_extension};
use crate::text::{
    chars_of, find, first_occurrence, lemma_first_occurrence, lemma_no_occurrence,
    lemma_past_char, lemma_past_white_space, occurs_at, past_char, past_white_space, same_text,
    skip_char, skip_white_space,
};

verus! {

/// The closing body tag, in front of which the script goes.
pub const BODY_END_DELIMITER: &'static str = "</body>";

/// The file served for a request path that names a directory.
pub const INDEX_FILE: &'static str = "index.html";

/// The extension of the files that get the script.
pub const HTML_EXTENSION: &'static str = "html";

/// The directory that relative asset directories are resolved against.
pub const CURRENT_DIR: &'static str = ".";

/// The content type of a page that was served with the script.
pub const HTML_CONTENT_TYPE: &'static str = "text/html";

/// The content type of the answer to a request whose page could not be read.
pub const PLAIN_CONTENT_TYPE: &'static str = "text/plain";

/// The body of the answer to a request whose page could not be read.
pub const LOAD_FAILURE_BODY: &'static str = "failed to load file for injection";

/// The status of a page that was served with the script.
pub const STATUS_OK: u16 = 200;

/// The status of the answer to a request whose page could not be read.
pub const STATUS_INTERNAL_SERVER_ERROR: u16 = 500;

/// The page `html` with the script `js`: a line break and the script go
/// immediately in front of the first closing body tag, and the rest is kept
/// as it is. A page without a closing body tag is left unchanged.
pub open spec fn injected(html: Seq<char>, js: Seq<char>) -> Seq<char> {
    match first_occurrence(html, BODY_END_DELIMITER@) {
        Some(at) => html.subrange(0, at) + seq!['\n'] + js + html.subrange(
            at,
            html.len() as int,
        ),
        None => html,
    }
}

/// The request path with the index file's name added where it ends in a
/// slash.
pub open spec fn with_index(uri_path: Seq<char>) -> Seq<char> {
    if uri_path.len() > 0 && uri_path.last() == '/' {
        uri_path + INDEX_FILE@
    } else {
        uri_path
    }
}

/// The path, relative to the asset directory, of the file that a request
/// for `uri_path` names: the path with its index file, without leading white
/// space and without the slashes that follow it.
pub open spec fn relative_path(uri_path: Seq<char>) -> Seq<char> {
    let full = with_index(uri_path);
    let start = past_char(full, '/', past_white_space(full, 0));
    full.subrange(start, full.len() as int)
}

/// A file gets the script if it is a regular file, its extension is `html`,
/// and it is known to exist. `exists` is nothing where the file system could
/// not tell.
pub open spec fn is_candidate(path: Seq<char>, is_file: bool, exists: Option<bool>) -> bool {
    is_file && extension_of(path) == Some(HTML_EXTENSION@) && exists == Some(true)
}

/// Puts the script `js` into the page `html`, as [`injected`] says.
pub fn inject_js_into_html(html: &str, js: &str) -> (page: String)
    ensures
        page@ == injected(html@, js@),
{
    proof {
        reveal_strlit("\n");
    }
    let text = chars_of(html);
    let tag = chars_of(BODY_END_DELIMITER);
    match find(&text, &tag) {
        Some(at) => {
            let mut page = html.substring_char(0, at).to_owned();
            page.append("\n");
            page.append(js);
            page.append(html.substring_char(at, text.len()));
            assert("\n"@ =~= seq!['\n']);
            page
        },
        None => html.to_owned(),
    }
}

/// The path, relative to the asset directory, of the file that a request
/// for `uri_path` names. It never begins with a slash.
pub fn request_relative_path(uri_path: &str) -> (path: String)
    ensures
        path@ == relative_path(uri_path@),
        path@.len() > 0 ==> path@[0] != '/',
{
    let given = chars_of(uri_path);
    let mut full = uri_path.to_owned();
    if given.len() > 0 && given[given.len() - 1] == '/' {
        full.append(INDEX_FILE);
    }
    let text = chars_of(full.as_str());
    let start = skip_char(&text, '/', skip_white_space(&text, 0));
    proof {
        lemma_past_white_space(text@, 0);
        lemma_past_char(text@, '/', past_white_space(text@, 0));
    }
    full.as_str().substring_char(start, text.len()).to_owned()
}

/// Whether an extension, as the standard library found it, is `html`.
pub fn is_html_extension(extension: &Option<String>) -> (html: bool)
    ensures
        html == (extension matches Some(text) && text@ == HTML_EXTENSION@),
{
    match extension {
        Some(text) => same_text(text.as_str(), HTML_EXTENSION),
        None => false,
    }
}

/// Whether the file at `path` gets the script. The host has looked at the
/// file system and says whether `path` is a regular file and whether it
/// exists, if that could be told.
pub fn is_inject_candidate(path: &str, is_file: bool, exists: Option<bool>) -> (candidate: bool)
    ensures
        candidate == is_candidate(path@, is_file, exists),
{
    if !is_file {
        return false;
    }
    let extension = path_extension(path);
    if !is_html_extension(&extension) {
        return false;
    }
    match exists {
        Some(true) => true,
        _ => false,
    }
}

/// What an [`InjectedHtmlServeDir`] stands for.
pub struct InjectedHtmlServeDirView {
    pub asset_dir: Seq<char>,
    pub inject_content: Seq<char>,
}

/// The middleware's configuration: the directory the assets are served from
/// and the script that goes into every page. It is made once and never
/// changed.
#[derive(Clone, Debug)]
pub struct InjectedHtmlServeDir {
    asset_dir: String,
    inject_content: String,
}

impl View for InjectedHtmlServeDir {
    type V = InjectedHtmlServeDirView;

    closed spec fn view(&self) -> InjectedHtmlServeDirView {
        InjectedHtmlServeDirView {
            asset_dir: self.asset_dir@,
            inject_content: self.inject_content@,
        }
    }
}

impl InjectedHtmlServeDir {
    /// The configuration for the assets under `asset_dir`, which is taken
    /// relative to the current directory.
    pub fn new(asset_dir: &str, inject_content: String) -> (state: Self)
        ensures
            state@ == (InjectedHtmlServeDirView {
                asset_dir: joined_path(CURRENT_DIR@, asset_dir@),
                inject_content: inject_content@,
            }),
    {
        InjectedHtmlServeDir { asset_dir: join_path(CURRENT_DIR, asset_dir), inject_content }
    }

    /// The directory the assets are served from.
    pub fn asset_dir(&self) -> (dir: &str)
        ensures
            dir@ == self@.asset_dir,
    {
        self.asset_dir.as_str()
    }

    /// The script that goes into every page.
    pub fn inject_content(&self) -> (js: &str)
        ensures
            js@ == self@.inject_content,
    {
        self.inject_content.as_str()
    }

    /// The path of the file that a request for `uri_path` names.
    pub fn asset_path(&self, uri_path: &str) -> (path: String)
        ensures
            path@ == joined_path(self@.asset_dir, relative_path(uri_path@)),
    {
        let relative = request_relative_path(uri_path);
        join_path(self.asset_dir.as_str(), relative.as_str())
    }
}

/// What an [`HtmlResponse`] stands for.
pub struct HtmlResponseView {
    pub status: u16,
    pub content_type: Seq<char>,
    pub body: Seq<char>,
}

/// A complete response made by the middleware.
#[derive(Clone, Debug, PartialEq, Eq)]
pub struct HtmlResponse {
    pub status: u16,
    pub content_type: String,
    pub body: String,
}

impl View for HtmlResponse {
    type V = HtmlResponseView;

    open spec fn view(&self) -> HtmlResponseView {
        HtmlResponseView {
            status: self.status,
            content_type: self.content_type@,
            body: self.body@,
        }
    }
}

/// What an [`InjectionEvent`] stands for.
pub enum InjectionEventView {
    Request { uri_path: Seq<char> },
    Probed { path: Seq<char>, is_file: bool, exists: Option<bool> },
    Loaded { content: Seq<char> },
    LoadFailed,
}

/// What the host reports to the middleware.
#[derive(Clone, Debug, PartialEq, Eq)]
pub enum InjectionEvent {
    /// A request for this path of the URL has come in.
    Request { uri_path: String },
    /// The file system was asked about `path`: whether it is a regular file,
    /// and whether it exists, if that could be told.
    Probed { path: String, is_file: bool, exists: Option<bool> },
    /// The file was read, and this is its content.
    Loaded { content: String },
    /// The file could not be read.
    LoadFailed,
}

impl View for InjectionEvent {
    type V = InjectionEventView;

    open spec fn view(&self) -> InjectionEventView {
        match self {
            InjectionEvent::Request { uri_path } => InjectionEventView::Request {
                uri_path: uri_path@,
            },
            InjectionEvent::Probed { path, is_file, exists } => InjectionEventView::Probed {
                path: path@,
                is_file: *is_file,
                exists: *exists,
            },
            InjectionEvent::Loaded { content } => InjectionEventView::Loaded { content: content@ },
            InjectionEvent::LoadFailed => InjectionEventView::LoadFailed,
        }
    }
}

/// What an [`InjectionAction`] stands for.
pub enum InjectionActionView {
    Probe { path: Seq<char> },
    Load { path: Seq<char> },
    Forward,
    Respond(HtmlResponseView),
}

/// What the middleware asks the host to do.
#[derive(Clone, Debug, PartialEq, Eq)]
pub enum InjectionAction {
    /// Ask the file system whether `path` is a regular file and whether it
    /// exists.
    Probe { path: String },
    /// Read the whole file at `path`.
    Load { path: String },
    /// Hand the request to the static file responder unchanged.
    Forward,
    /// Answer the request with this response.
    Respond(HtmlResponse),
}

impl View for InjectionAction {
    type V = InjectionActionView;

    open spec fn view(&self) -> InjectionActionView {
        match self {
            InjectionAction::Probe { path } => InjectionActionView::Probe { path: path@ },
            InjectionAction::Load { path } => InjectionActionView::Load { path: path@ },
            InjectionAction::Forward => InjectionActionView::Forward,
            InjectionAction::Respond(response) => InjectionActionView::Respond(response@),
        }
    }
}

/// The middleware's protocol: what it asks for after `event`.
///
/// A request is mapped onto the asset directory and the file system is asked
/// about the result. A file that is no candidate is left to the static file
/// responder. A candidate is read; its content is answered with the script
/// in it, and a failure to read it is answered with a server error.
pub open spec fn injection_step(
    state: InjectedHtmlServeDirView,
    event: InjectionEventView,
) -> InjectionActionView {
    match event {
        InjectionEventView::Request { uri_path } => InjectionActionView::Probe {
            path: joined_path(state.asset_dir, relative_path(uri_path)),
        },
        InjectionEventView::Probed { path, is_file, exists } => if is_candidate(
            path,
            is_file,
            exists,
        ) {
            InjectionActionView::Load { path: path }
        } else {
            InjectionActionView::Forward
        },
        InjectionEventView::Loaded { content } => InjectionActionView::Respond(
            HtmlResponseView {
                status: STATUS_OK,
                content_type: HTML_CONTENT_TYPE@,
                body: injected(content, state.inject_content),
            },
        ),
        InjectionEventView::LoadFailed => InjectionActionView::Respond(
            HtmlResponseView {
                status: STATUS_INTERNAL_SERVER_ERROR,
                content_type: PLAIN_CONTENT_TYPE@,
                body: LOAD_FAILURE_BODY@,
            },
        ),
    }
}

/// One step of the middleware, exactly as [`injection_step`] says.
pub fn html_reload_injection(state: &InjectedHtmlServeDir, event: InjectionEvent) -> (action:
    InjectionAction)
    ensures
        action@ == injection_step(state@, event@),
{
    match event {
        InjectionEvent::Request { uri_path } => InjectionAction::Probe {
            path: state.asset_path(uri_path.as_str()),
        },
        InjectionEvent::Probed { path, is_file, exists } => {
            if is_inject_candidate(path.as_str(), is_file, exists) {
                InjectionAction::Load { path }
            } else {
                InjectionAction::Forward
            }
        },
        InjectionEvent::Loaded { content } => InjectionAction::Respond(
            HtmlResponse {
                status: STATUS_OK,
                content_type: HTML_CONTENT_TYPE.to_owned(),
                body: inject_js_into_html(content.as_str(), state.inject_content.as_str()),
            },
        ),
        InjectionEvent::LoadFailed => InjectionAction::Respond(
            HtmlResponse {
                status: STATUS_INTERNAL_SERVER_ERROR,
                content_type: PLAIN_CONTENT_TYPE.to_owned(),
                body: LOAD_FAILURE_BODY.to_owned(),
            },
        ),
    }
}

/// Placement of the script. In a page with exactly one closing body tag,
/// the page up to the tag is kept, then come a line break and the script,
/// and then the tag and the rest of the page, unchanged: the tag follows the
/// script immediately.
pub proof fn lemma_injection_placement(html: Seq<char>, js: Seq<char>, at: int)
    requires
        occurs_at(html, BODY_END_DELIMITER@, at),
        forall|other: int| other != at ==> !occurs_at(html, BODY_END_DELIMITER@, other),
    ensures
        injected(html, js) == html.subrange(0, at) + seq!['\n'] + js + html.subrange(
            at,
            html.len() as int,
        ),
        injected(html, js).len() == html.len() + 1 + js.len(),
        injected(html, js).subrange(0, at) == html.subrange(0, at),
        injected(html, js).subrange(at, at + 1 + js.len()) == seq!['\n'] + js,
        injected(html, js).subrange(at + 1 + js.len(), injected(html, js).len() as int)
            == html.subrange(at, html.len() as int),
        occurs_at(injected(html, js), BODY_END_DELIMITER@, at + 1 + js.len()),
{
    lemma_first_occurrence(html, BODY_END_DELIMITER@, at);
    let page = injected(html, js);
    let tag = BODY_END_DELIMITER@;
    let after = at + 1 + js.len();
    assert(page.subrange(0, at) =~= html.subrange(0, at));
    assert(page.subrange(at, after) =~= seq!['\n'] + js);
    assert(page.subrange(after, page.len() as int) =~= html.subrange(at, html.len() as int));
    assert(page.subrange(after, after + tag.len()) =~= html.subrange(at, at + tag.len()));
}

/// A page without a closing body tag is served exactly as it is.
pub proof fn lemma_injection_without_tag(html: Seq<char>, js: Seq<char>)
    requires
        forall|at: int| !occurs_at(html, BODY_END_DELIMITER@, at),
    ensures
        injected(html, js) == html,
{
    lemma_no_occurrence(html, BODY_END_DELIMITER@);
}

/// The path that a request is mapped to is what is left of the request
/// path, with its index file, after the white space and then the slashes at
/// its start: it is a suffix of it, and it does not begin with a slash.
pub proof fn lemma_relative_path(uri_path: Seq<char>)
    ensures
        relative_path(uri_path).len() <= with_index(uri_path).len(),
        relative_path(uri_path) == with_index(uri_path).skip(
            with_index(uri_path).len() - relative_path(uri_path).len(),
        ),
        relative_path(uri_path).len() > 0 ==> relative_path(uri_path)[0] != '/',
{
    let full = with_index(uri_path);
    lemma_past_white_space(full, 0);
    lemma_past_char(full, '/', past_white_space(full, 0));
}

/// Passthrough. A file whose extension is not `html` is never read by the
/// middleware, whatever the file system says of it: the request goes to the
/// static file responder unchanged.
pub proof fn lemma_non_html_passthrough(
    state: InjectedHtmlServeDirView,
    path: Seq<char>,
    is_file: bool,
    exists: Option<bool>,
)
    requires
        extension_of(path) != Some(HTML_EXTENSION@),
    ensures
        injection_step(
            state,
            InjectionEventView::Probed { path: path, is_file: is_file, exists: exists },
        ) == InjectionActionView::Forward,
{
}

} // verus!
