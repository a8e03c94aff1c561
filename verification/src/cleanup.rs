//! Cleaning up after a test: BuildKit containers, the test container, the
//! images built, dangling images; then a check that nothing is left.
use vstd::prelude::*;
use crate::command::{
    arg, arg_owned, docker, docker_with, printed_something, Command, CommandView, Outcome,
    OutcomeView,
};
use crate::report::{
    plain, red, say, say_with, tinted, views, yellow, Hue, Line, LineView,
};
use crate::text::{append, lemma_lines_len, lemma_trimmed_len, lines_of, split_lines, trim, trimmed};

verus! {

// ---------------------------------------------------------------------------
// Texts
// ---------------------------------------------------------------------------

/// The image the tool builds when no other name is configured.
pub open spec fn default_image() -> Seq<char> {
    "docker-test:latest"@
}

/// `true` or `false`, as `{}` formats a `bool`.
pub open spec fn bool_text(b: bool) -> Seq<char> {
    if b {
        "true"@
    } else {
        "false"@
    }
}

/// `b` written as `true` or `false`.
pub fn bool_string(b: bool) -> (r: String)
    ensures
        r@ == bool_text(b),
{
    if b {
        String::from_str("true")
    } else {
        String::from_str("false")
    }
}

/// How `{:?}` formats a list of strings: the standard library's rendering,
/// with brackets, quotes and escapes.
pub uninterp spec fn debug_list(items: Seq<Seq<char>>) -> Seq<char>;

/// A list of strings formatted with `{:?}`.
///
/// Trusted: the text is `debug_list` of the items, the name of what the
/// standard library's `Debug` writes; nothing more is claimed of it.
#[verifier::external_body]
pub(crate) fn debug_list_string(items: &Vec<String>) -> (r: String)
    ensures
        r@ == debug_list(items.deep_view()),
{
    format!("{:?}", items)
}

/// A yellow line.
pub open spec fn y(label: Seq<char>) -> LineView {
    say(Some(Hue::Yellow), label)
}

/// A yellow label with a detail.
pub open spec fn yd(label: Seq<char>, detail: Seq<char>) -> LineView {
    say_with(Some(Hue::Yellow), label, detail)
}

/// A red line.
pub open spec fn r(label: Seq<char>) -> LineView {
    say(Some(Hue::Red), label)
}

/// A red label with a detail.
pub open spec fn rd(label: Seq<char>, detail: Seq<char>) -> LineView {
    say_with(Some(Hue::Red), label, detail)
}

/// An uncoloured line.
pub open spec fn p(text: Seq<char>) -> LineView {
    say(None, text)
}

/// The report on a command's output: its standard output under `head`,
/// then its standard error under `err_head` when there is any.
pub open spec fn output_report(
    head: LineView,
    err_head: LineView,
    stdout: Seq<char>,
    stderr: Seq<char>,
) -> Seq<LineView> {
    seq![head, p(stdout)] + if stderr.len() > 0 {
        seq![err_head, p(stderr)]
    } else {
        seq![]
    }
}

/// The red line reporting that a command exited with a failure status.
pub open spec fn failure_line(label: Seq<char>, subject: Option<Seq<char>>, stderr: Seq<char>) -> LineView {
    match subject {
        Some(s) => rd(label, s + ": "@ + stderr),
        None => rd(label, stderr),
    }
}

/// `failure_line` when `success` is false, nothing otherwise.
pub open spec fn failure_report(
    success: bool,
    label: Seq<char>,
    subject: Option<Seq<char>>,
    stderr: Seq<char>,
) -> Seq<LineView> {
    if success {
        seq![]
    } else {
        seq![failure_line(label, subject, stderr)]
    }
}

fn emit_output_report(
    out: &mut Vec<Line>,
    head: Line,
    err_head: Line,
    stdout: &String,
    stderr: &String,
)
    ensures
        views(final(out)@) == views(old(out)@) + output_report(head@, err_head@, stdout@, stderr@),
{
    crate::report::emit(out, head);
    plain(out, stdout.clone());
    if !stderr.as_str().is_empty() {
        crate::report::emit(out, err_head);
        plain(out, stderr.clone());
    }
    assert(views(out@) =~= views(old(out)@) + output_report(head@, err_head@, stdout@, stderr@));
}

fn emit_failure_report(
    out: &mut Vec<Line>,
    success: bool,
    label: &str,
    subject: Option<&String>,
    stderr: &String,
)
    ensures
        views(final(out)@) == views(old(out)@) + failure_report(
            success,
            label@,
            match subject {
                Some(s) => Some(s@),
                None => None,
            },
            stderr@,
        ),
{
    if !success {
        let detail = match subject {
            Some(s) => {
                let mut d = s.clone();
                append(&mut d, ": ");
                append(&mut d, stderr.as_str());
                d
            },
            None => stderr.clone(),
        };
        tinted(out, Hue::Red, label, detail);
    }
    assert(views(out@) =~= views(old(out)@) + failure_report(
        success,
        label@,
        match subject {
            Some(s) => Some(s@),
            None => None,
        },
        stderr@,
    ));
}

fn yellow_line(label: &str) -> (l: Line)
    ensures
        l@ == y(label@),
{
    Line { hue: Some(Hue::Yellow), label: String::from_str(label), detail: None, to_stderr: false }
}

fn red_line(label: &str) -> (l: Line)
    ensures
        l@ == r(label@),
{
    Line { hue: Some(Hue::Red), label: String::from_str(label), detail: None, to_stderr: false }
}

fn yellow_line_with(label: &str, detail: String) -> (l: Line)
    ensures
        l@ == yd(label@, detail@),
{
    Line { hue: Some(Hue::Yellow), label: String::from_str(label), detail: Some(detail), to_stderr: false }
}

fn red_line_with(label: &str, detail: String) -> (l: Line)
    ensures
        l@ == rd(label@, detail@),
{
    Line { hue: Some(Hue::Red), label: String::from_str(label), detail: Some(detail), to_stderr: false }
}

// ---------------------------------------------------------------------------
// Errors and actions
// ---------------------------------------------------------------------------

/// Why a cleanup failed.
pub enum CleanupError {
    /// `docker info` could not be started.
    DaemonInaccessible(String),
    /// `docker info` exited with a failure status.
    DaemonError,
    /// A command could not be started: what was being done, and why.
    Context { context: String, cause: String },
    /// Something was still there after the cleanup.
    Leftovers { containers: bool, images: bool, default_image: bool, dangling: bool },
}

/// The mathematical content of a [`CleanupError`].
pub enum CleanupErrorView {
    DaemonInaccessible(Seq<char>),
    DaemonError,
    Context { context: Seq<char>, cause: Seq<char> },
    Leftovers { containers: bool, images: bool, default_image: bool, dangling: bool },
}

impl View for CleanupError {
    type V = CleanupErrorView;

    open spec fn view(&self) -> CleanupErrorView {
        match self {
            CleanupError::DaemonInaccessible(e) => CleanupErrorView::DaemonInaccessible(e@),
            CleanupError::DaemonError => CleanupErrorView::DaemonError,
            CleanupError::Context { context, cause } => CleanupErrorView::Context {
                context: context@,
                cause: cause@,
            },
            CleanupError::Leftovers { containers, images, default_image, dangling } =>
                CleanupErrorView::Leftovers {
                containers: *containers,
                images: *images,
                default_image: *default_image,
                dangling: *dangling,
            },
        }
    }
}

/// The text of the leftovers report.
pub open spec fn leftovers_text(c: bool, i: bool, d: bool, g: bool) -> Seq<char> {
    "containers="@ + bool_text(c) + ", images="@ + bool_text(i) + ", default_image="@
        + bool_text(d) + ", dangling="@ + bool_text(g)
}

/// The message a cleanup error is reported with.
pub open spec fn cleanup_error_message(e: CleanupErrorView) -> Seq<char> {
    match e {
        CleanupErrorView::DaemonInaccessible(m) => "Docker daemon inaccessible: "@ + m,
        CleanupErrorView::DaemonError => "Docker daemon error"@,
        CleanupErrorView::Context { context, .. } => context,
        CleanupErrorView::Leftovers { containers, images, default_image, dangling } =>
            "Failed to clean up: "@ + leftovers_text(containers, images, default_image, dangling),
    }
}

fn leftovers_string(c: bool, i: bool, d: bool, g: bool) -> (s: String)
    ensures
        s@ == leftovers_text(c, i, d, g),
{
    let mut s = String::from_str("containers=");
    append(&mut s, bool_string(c).as_str());
    append(&mut s, ", images=");
    append(&mut s, bool_string(i).as_str());
    append(&mut s, ", default_image=");
    append(&mut s, bool_string(d).as_str());
    append(&mut s, ", dangling=");
    append(&mut s, bool_string(g).as_str());
    s
}

impl CleanupError {
    /// The message this error is reported with.
    pub fn message(&self) -> (m: String)
        ensures
            m@ == cleanup_error_message(self@),
    {
        match self {
            CleanupError::DaemonInaccessible(e) => {
                let mut m = String::from_str("Docker daemon inaccessible: ");
                append(&mut m, e.as_str());
                m
            },
            CleanupError::DaemonError => String::from_str("Docker daemon error"),
            CleanupError::Context { context, .. } => context.clone(),
            CleanupError::Leftovers { containers, images, default_image, dangling } => {
                let mut m = String::from_str("Failed to clean up: ");
                let t = leftovers_string(*containers, *images, *default_image, *dangling);
                append(&mut m, t.as_str());
                m
            },
        }
    }
}

/// What the cleanup asks the host to do next.
pub enum CleanupAction {
    /// Run this command and report its outcome.
    Run(Command),
    /// The cleanup is over.
    Done(Result<(), CleanupError>),
}

/// The mathematical content of a [`CleanupAction`].
pub enum CleanupActionView {
    Run(CommandView),
    Done(Result<(), CleanupErrorView>),
}

impl View for CleanupAction {
    type V = CleanupActionView;

    open spec fn view(&self) -> CleanupActionView {
        match self {
            CleanupAction::Run(c) => CleanupActionView::Run(c@),
            CleanupAction::Done(Ok(())) => CleanupActionView::Done(Ok(())),
            CleanupAction::Done(Err(e)) => CleanupActionView::Done(Err(e@)),
        }
    }
}

/// The action that ends the cleanup because `context` could not be started.
pub open spec fn abort(context: Seq<char>, cause: Seq<char>) -> CleanupActionView {
    CleanupActionView::Done(Err(CleanupErrorView::Context { context, cause }))
}

fn abort_with(context: String, cause: String) -> (a: CleanupAction)
    ensures
        a@ == abort(context@, cause@),
{
    CleanupAction::Done(Err(CleanupError::Context { context, cause }))
}

// ---------------------------------------------------------------------------
// Commands
// ---------------------------------------------------------------------------

/// `docker info`.
pub open spec fn info_cmd() -> CommandView {
    docker(seq!["info"@])
}

/// Lists the BuildKit builder containers.
pub open spec fn list_buildkit_cmd() -> CommandView {
    docker(
        seq![
            "ps"@,
            "-a"@,
            "-q"@,
            "--filter"@,
            "ancestor=moby/buildkit:buildx-stable-1"@,
            "--filter"@,
            "name=buildx_buildkit_"@,
        ],
    )
}

/// `docker stop <name>`.
pub open spec fn stop_cmd(name: Seq<char>) -> CommandView {
    docker(seq!["stop"@, name])
}

/// `docker rm -f <name>`.
pub open spec fn rm_cmd(name: Seq<char>) -> CommandView {
    docker(seq!["rm"@, "-f"@, name])
}

/// Lists the containers, running or not, whose name matches `name`.
pub open spec fn find_container_cmd(name: Seq<char>) -> CommandView {
    docker(seq!["ps"@, "-a"@, "-q"@, "--filter"@, "name="@ + name])
}

/// Lists the ids of the images matching `image`.
pub open spec fn find_image_cmd(image: Seq<char>) -> CommandView {
    docker(seq!["images"@, "-q"@, image])
}

/// `docker rmi -f <images...>`.
pub open spec fn rmi_cmd(images: Seq<Seq<char>>) -> CommandView {
    docker(seq!["rmi"@, "-f"@] + images)
}

/// Lists the dangling images.
pub open spec fn list_dangling_cmd() -> CommandView {
    docker(seq!["images"@, "-f"@, "dangling=true"@, "-q"@])
}

/// `docker image prune -f`.
pub open spec fn prune_cmd() -> CommandView {
    docker(seq!["image"@, "prune"@, "-f"@])
}

/// Lists the ids of all containers.
pub open spec fn all_containers_cmd() -> CommandView {
    docker(seq!["ps"@, "-a"@, "-q"@])
}

/// Lists all containers.
pub open spec fn show_containers_cmd() -> CommandView {
    docker(seq!["ps"@, "-a"@])
}

/// Lists all images.
pub open spec fn show_images_cmd() -> CommandView {
    docker(seq!["images"@])
}

fn cmd1(a: &str) -> (c: Command)
    ensures
        c@ == docker(seq![a@]),
{
    let mut v: Vec<String> = Vec::new();
    arg(&mut v, a);
    assert(v.deep_view() =~= seq![a@]);
    docker_with(v)
}

fn cmd2(a: &str, b: &str) -> (c: Command)
    ensures
        c@ == docker(seq![a@, b@]),
{
    let mut v: Vec<String> = Vec::new();
    arg(&mut v, a);
    arg(&mut v, b);
    assert(v.deep_view() =~= seq![a@, b@]);
    docker_with(v)
}

fn cmd3(a: &str, b: &str, c: &str) -> (r: Command)
    ensures
        r@ == docker(seq![a@, b@, c@]),
{
    let mut v: Vec<String> = Vec::new();
    arg(&mut v, a);
    arg(&mut v, b);
    arg(&mut v, c);
    assert(v.deep_view() =~= seq![a@, b@, c@]);
    docker_with(v)
}

fn cmd_named2(a: &str, name: &String) -> (c: Command)
    ensures
        c@ == docker(seq![a@, name@]),
{
    let mut v: Vec<String> = Vec::new();
    arg(&mut v, a);
    arg_owned(&mut v, name.clone());
    assert(v.deep_view() =~= seq![a@, name@]);
    docker_with(v)
}

fn cmd_named3(a: &str, b: &str, name: &String) -> (c: Command)
    ensures
        c@ == docker(seq![a@, b@, name@]),
{
    let mut v: Vec<String> = Vec::new();
    arg(&mut v, a);
    arg(&mut v, b);
    arg_owned(&mut v, name.clone());
    assert(v.deep_view() =~= seq![a@, b@, name@]);
    docker_with(v)
}

fn list_buildkit() -> (c: Command)
    ensures
        c@ == list_buildkit_cmd(),
{
    let mut v: Vec<String> = Vec::new();
    arg(&mut v, "ps");
    arg(&mut v, "-a");
    arg(&mut v, "-q");
    arg(&mut v, "--filter");
    arg(&mut v, "ancestor=moby/buildkit:buildx-stable-1");
    arg(&mut v, "--filter");
    arg(&mut v, "name=buildx_buildkit_");
    assert(v.deep_view() =~= list_buildkit_cmd().args);
    docker_with(v)
}

fn find_container(name: &String) -> (c: Command)
    ensures
        c@ == find_container_cmd(name@),
{
    let mut v: Vec<String> = Vec::new();
    arg(&mut v, "ps");
    arg(&mut v, "-a");
    arg(&mut v, "-q");
    arg(&mut v, "--filter");
    let mut f = String::from_str("name=");
    append(&mut f, name.as_str());
    arg_owned(&mut v, f);
    assert(v.deep_view() =~= find_container_cmd(name@).args);
    docker_with(v)
}

fn list_dangling() -> (c: Command)
    ensures
        c@ == list_dangling_cmd(),
{
    let mut v: Vec<String> = Vec::new();
    arg(&mut v, "images");
    arg(&mut v, "-f");
    arg(&mut v, "dangling=true");
    arg(&mut v, "-q");
    assert(v.deep_view() =~= list_dangling_cmd().args);
    docker_with(v)
}

fn rmi_one(name: &str) -> (c: Command)
    ensures
        c@ == rmi_cmd(seq![name@]),
{
    let c = cmd3("rmi", "-f", name);
    assert(seq!["rmi"@, "-f"@] + seq![name@] =~= seq!["rmi"@, "-f"@, name@]);
    c
}

fn rmi_all(images: &Vec<String>) -> (c: Command)
    ensures
        c@ == rmi_cmd(images.deep_view()),
{
    let mut v: Vec<String> = Vec::new();
    arg(&mut v, "rmi");
    arg(&mut v, "-f");
    let mut i: usize = 0;
    while i < images.len()
        invariant
            i <= images@.len(),
            v.deep_view() == seq!["rmi"@, "-f"@] + images.deep_view().take(i as int),
        decreases images@.len() - i,
    {
        arg_owned(&mut v, images[i].clone());
        i = i + 1;
        assert(v.deep_view() =~= seq!["rmi"@, "-f"@] + images.deep_view().take(i as int));
    }
    assert(images.deep_view().take(i as int) =~= images.deep_view());
    docker_with(v)
}

// ---------------------------------------------------------------------------
// The machine
// ---------------------------------------------------------------------------

/// Where a cleanup stands: the command whose outcome it waits for.
#[derive(Clone, Copy, Debug, PartialEq, Eq, Structural)]
pub enum CleanupStage {
    DaemonCheck,
    ListBuildkit,
    StopBuildkit(usize),
    RemoveBuildkit(usize),
    FindContainer,
    StopContainer,
    RemoveContainer,
    FindImageById,
    RemoveImageById,
    FindImageByName,
    RemoveImageByName,
    RemoveDefaultImage,
    ListDangling,
    RemoveDangling,
    Prune,
    CountContainers,
    CountImage,
    CountDefaultImage,
    CountDangling,
    ShowContainers,
    ShowImages,
    Finished,
}

/// A cleanup in progress.
pub struct Cleanup {
    image_id: String,
    container_name: String,
    image_name: String,
    stage: CleanupStage,
    buildkit: Vec<String>,
    containers_left: bool,
    image_left: bool,
    default_left: bool,
    dangling_left: bool,
}

/// The mathematical content of a [`Cleanup`].
pub struct CleanupView {
    pub image_id: Seq<char>,
    pub container_name: Seq<char>,
    pub image_name: Seq<char>,
    pub stage: CleanupStage,
    /// The BuildKit containers found.
    pub buildkit: Seq<Seq<char>>,
    /// What the final checks found still there.
    pub containers_left: bool,
    pub image_left: bool,
    pub default_left: bool,
    pub dangling_left: bool,
}

impl View for Cleanup {
    type V = CleanupView;

    closed spec fn view(&self) -> CleanupView {
        CleanupView {
            image_id: self.image_id@,
            container_name: self.container_name@,
            image_name: self.image_name@,
            stage: self.stage,
            buildkit: self.buildkit.deep_view(),
            containers_left: self.containers_left,
            image_left: self.image_left,
            default_left: self.default_left,
            dangling_left: self.dangling_left,
        }
    }
}

/// The cleanup's invariant: a BuildKit container being handled is one that
/// was found.
pub open spec fn cleanup_inv(s: CleanupView) -> bool {
    match s.stage {
        CleanupStage::StopBuildkit(i) => i < s.buildkit.len(),
        CleanupStage::RemoveBuildkit(i) => i < s.buildkit.len(),
        _ => true,
    }
}

/// The state, lines and action after one step.
pub type CleanupStep = (CleanupView, Seq<LineView>, CleanupActionView);

/// In state `s`, move to `stage` and run `c`.
pub open spec fn go(s: CleanupView, stage: CleanupStage, lines: Seq<LineView>, c: CommandView) -> CleanupStep {
    (CleanupView { stage, ..s }, lines, CleanupActionView::Run(c))
}

/// The first lines and action of a cleanup of the given container and images.
pub open spec fn cleanup_start(image_id: Seq<char>, container_name: Seq<char>, image_name: Seq<char>) -> CleanupStep {
    let s = CleanupView {
        image_id,
        container_name,
        image_name,
        stage: CleanupStage::DaemonCheck,
        buildkit: seq![],
        containers_left: false,
        image_left: false,
        default_left: false,
        dangling_left: false,
    };
    (
        s,
        seq![
            yd(
                "Cleanup started:"@,
                "container_name=\""@ + container_name + "\", image_name=\""@ + image_name
                    + "\", image_id=\""@ + image_id + "\""@,
            ),
        ],
        CleanupActionView::Run(info_cmd()),
    )
}

/// Removal of the BuildKit containers is over: look for the test container,
/// if there is one.
pub open spec fn after_buildkit(s: CleanupView) -> CleanupStep {
    if s.container_name.len() > 0 {
        go(s, CleanupStage::FindContainer, seq![], find_container_cmd(s.container_name))
    } else {
        after_container(s)
    }
}

/// The test container is handled: look for the images, if any is named.
pub open spec fn after_container(s: CleanupView) -> CleanupStep {
    if s.image_name.len() > 0 || s.image_id.len() > 0 {
        go(s, CleanupStage::FindImageById, seq![], find_image_cmd(s.image_id))
    } else {
        after_images(s)
    }
}

/// Removal of the image found by name is over: remove the default image.
pub open spec fn remove_default(s: CleanupView) -> CleanupStep {
    go(
        s,
        CleanupStage::RemoveDefaultImage,
        seq![y("Removing image docker-test:latest..."@)],
        rmi_cmd(seq![default_image()]),
    )
}

/// The named images are handled: look for dangling images.
pub open spec fn after_images(s: CleanupView) -> CleanupStep {
    go(s, CleanupStage::ListDangling, seq![y("Cleaning up dangling images..."@)], list_dangling_cmd())
}

/// Dangling images are handled: prune.
pub open spec fn prune(s: CleanupView) -> CleanupStep {
    go(s, CleanupStage::Prune, seq![y("Pruning dangling images..."@)], prune_cmd())
}

/// The outcome of the final checks, once all four are in.
pub open spec fn verdict(s: CleanupView) -> CleanupStep {
    let any_image = s.image_left || s.default_left || s.dangling_left;
    if s.containers_left || any_image {
        let head = rd(
            "Cleanup failed:"@,
            "containers_exist="@ + bool_text(s.containers_left) + ", image_exists="@ + bool_text(
                s.image_left,
            ) + ", default_image_exists="@ + bool_text(s.default_left) + ", dangling_exists="@
                + bool_text(s.dangling_left),
        );
        if s.containers_left {
            go(s, CleanupStage::ShowContainers, seq![head], show_containers_cmd())
        } else {
            go(s, CleanupStage::ShowImages, seq![head], show_images_cmd())
        }
    } else {
        (
            CleanupView { stage: CleanupStage::Finished, ..s },
            seq![say(Some(Hue::Green), "Cleanup completed successfully"@)],
            CleanupActionView::Done(Ok(())),
        )
    }
}

/// The end of a cleanup that left something behind.
pub open spec fn leftovers(s: CleanupView) -> CleanupActionView {
    CleanupActionView::Done(
        Err(
            CleanupErrorView::Leftovers {
                containers: s.containers_left,
                images: s.image_left,
                default_image: s.default_left,
                dangling: s.dangling_left,
            },
        ),
    )
}

/// What a listing command printed; nothing if it could not start.
pub open spec fn listing(o: OutcomeView) -> Seq<char> {
    match o {
        OutcomeView::Ran { stdout, .. } => stdout,
        OutcomeView::NotRun { .. } => seq![],
    }
}

/// Prepends `lines` to the lines of a step.
pub open spec fn after(lines: Seq<LineView>, st: CleanupStep) -> CleanupStep {
    (st.0, lines + st.1, st.2)
}

/// One step of the cleanup: the next state, the lines to print and the next
/// action, for the outcome `o` of the command last asked for.
pub open spec fn cleanup_next(s: CleanupView, o: OutcomeView) -> CleanupStep {
    let fin = CleanupView { stage: CleanupStage::Finished, ..s };
    match s.stage {
        CleanupStage::DaemonCheck => match o {
            OutcomeView::NotRun { error } => (
                fin,
                seq![
                    rd(
                        "Docker daemon check failed:"@,
                        error
                            + ". Ensure Docker is running and user has permissions (try 'sudo' or add user to 'docker' group)."@,
                    ),
                ],
                CleanupActionView::Done(Err(CleanupErrorView::DaemonInaccessible(error))),
            ),
            OutcomeView::Ran { success: false, stderr, .. } => (
                fin,
                seq![rd("Docker info failed:"@, stderr)],
                CleanupActionView::Done(Err(CleanupErrorView::DaemonError)),
            ),
            OutcomeView::Ran { success: true, .. } => go(
                s,
                CleanupStage::ListBuildkit,
                seq![y("Cleaning up BuildKit containers..."@)],
                list_buildkit_cmd(),
            ),
        },
        CleanupStage::ListBuildkit => match o {
            OutcomeView::NotRun { error } => (
                fin,
                seq![],
                abort("Failed to list BuildKit containers"@, error),
            ),
            OutcomeView::Ran { stdout, .. } => {
                let ids = lines_of(trimmed(stdout));
                if ids.len() > 0 {
                    (
                        CleanupView { stage: CleanupStage::StopBuildkit(0), buildkit: ids, ..s },
                        seq![yd("Found BuildKit containers:"@, debug_list(ids))],
                        CleanupActionView::Run(stop_cmd(ids[0])),
                    )
                } else {
                    after(
                        seq![y("No BuildKit containers found."@)],
                        after_buildkit(CleanupView { buildkit: ids, ..s }),
                    )
                }
            },
        },
        CleanupStage::StopBuildkit(i) => {
            let id = s.buildkit[i as int];
            match o {
                OutcomeView::NotRun { error } => (
                    fin,
                    seq![],
                    abort("Failed to stop BuildKit container "@ + id, error),
                ),
                OutcomeView::Ran { success, stderr, .. } => go(
                    s,
                    CleanupStage::RemoveBuildkit(i),
                    seq![
                        if success {
                            yd("Stopped BuildKit container:"@, id)
                        } else {
                            rd("Failed to stop BuildKit container:"@, id + ": "@ + stderr)
                        },
                    ],
                    rm_cmd(id),
                ),
            }
        },
        CleanupStage::RemoveBuildkit(i) => {
            let id = s.buildkit[i as int];
            match o {
                OutcomeView::NotRun { error } => (
                    fin,
                    seq![],
                    abort("Failed to remove BuildKit container "@ + id, error),
                ),
                OutcomeView::Ran { success, stderr, .. } => {
                    let report = seq![
                        if success {
                            yd("Removed BuildKit container:"@, id)
                        } else {
                            rd("Failed to remove BuildKit container:"@, id + ": "@ + stderr)
                        },
                    ];
                    if i + 1 < s.buildkit.len() {
                        go(
                            s,
                            CleanupStage::StopBuildkit((i + 1) as usize),
                            report,
                            stop_cmd(s.buildkit[i + 1]),
                        )
                    } else {
                        after(report, after_buildkit(s))
                    }
                },
            }
        },
        CleanupStage::FindContainer => {
            let exists = printed_something(o);
            let name = s.container_name;
            let seen = yd("Container:"@, name + " exists: "@ + bool_text(exists));
            if exists {
                go(
                    s,
                    CleanupStage::StopContainer,
                    seq![seen, yd("Stopping container:"@, name)],
                    stop_cmd(name),
                )
            } else {
                after(
                    seq![
                        seen,
                        yd("Container:"@, name + " does not exist, skipping removal."@),
                    ],
                    after_container(s),
                )
            }
        },
        CleanupStage::StopContainer => match o {
            OutcomeView::NotRun { error } => (fin, seq![], abort("Failed to stop container"@, error)),
            OutcomeView::Ran { success, stdout, stderr } => go(
                s,
                CleanupStage::RemoveContainer,
                output_report(
                    y("Container stop output:"@),
                    r("Container stop error:"@),
                    stdout,
                    stderr,
                ) + failure_report(
                    success,
                    "Failed to stop container:"@,
                    Some(s.container_name),
                    stderr,
                ) + seq![yd("Removing container:"@, s.container_name)],
                rm_cmd(s.container_name),
            ),
        },
        CleanupStage::RemoveContainer => match o {
            OutcomeView::NotRun { error } => (
                fin,
                seq![],
                abort("Failed to remove container: "@ + s.container_name, error),
            ),
            OutcomeView::Ran { success, stdout, stderr } => after(
                output_report(
                    y("Container remove output:"@),
                    r("Container remove error:"@),
                    stdout,
                    stderr,
                ) + failure_report(
                    success,
                    "Failed to remove container:"@,
                    Some(s.container_name),
                    stderr,
                ),
                after_container(s),
            ),
        },
        CleanupStage::FindImageById => {
            let exists = printed_something(o);
            let seen = yd("Image ID:"@, s.image_id + " exists: "@ + bool_text(exists));
            if exists {
                go(
                    s,
                    CleanupStage::RemoveImageById,
                    seq![seen, yd("Removing image by ID:"@, s.image_id)],
                    rmi_cmd(seq![s.image_id]),
                )
            } else {
                go(s, CleanupStage::FindImageByName, seq![seen], find_image_cmd(s.image_name))
            }
        },
        CleanupStage::RemoveImageById => match o {
            OutcomeView::NotRun { error } => (
                fin,
                seq![],
                abort("Failed to remove image by ID: "@ + s.image_id, error),
            ),
            OutcomeView::Ran { success, stdout, stderr } => go(
                s,
                CleanupStage::FindImageByName,
                output_report(
                    yd("Image remove output (ID:"@, s.image_id),
                    rd("Image remove error (ID:"@, s.image_id),
                    stdout,
                    stderr,
                ) + failure_report(
                    success,
                    "Failed to remove image by ID:"@,
                    Some(s.image_id),
                    stderr,
                ),
                find_image_cmd(s.image_name),
            ),
        },
        CleanupStage::FindImageByName => {
            let exists = printed_something(o);
            let seen = yd("Image name:"@, s.image_name + " exists: "@ + bool_text(exists));
            if exists {
                go(
                    s,
                    CleanupStage::RemoveImageByName,
                    seq![seen, yd("Removing image by name:"@, s.image_name)],
                    rmi_cmd(seq![s.image_name]),
                )
            } else {
                after(seq![seen], remove_default(s))
            }
        },
        CleanupStage::RemoveImageByName => match o {
            OutcomeView::NotRun { error } => (
                fin,
                seq![],
                abort("Failed to remove image by name: "@ + s.image_name, error),
            ),
            OutcomeView::Ran { success, stdout, stderr } => after(
                output_report(
                    yd("Image remove output (name:"@, s.image_name),
                    rd("Image remove error (name:"@, s.image_name),
                    stdout,
                    stderr,
                ) + failure_report(
                    success,
                    "Failed to remove image by name:"@,
                    Some(s.image_name),
                    stderr,
                ),
                remove_default(s),
            ),
        },
        CleanupStage::RemoveDefaultImage => match o {
            OutcomeView::NotRun { error } => (
                fin,
                seq![],
                abort("Failed to remove image docker-test:latest"@, error),
            ),
            OutcomeView::Ran { success, stdout, stderr } => after(
                output_report(
                    y("Image remove output (docker-test:latest):"@),
                    r("Image remove error (docker-test:latest):"@),
                    stdout,
                    stderr,
                ) + failure_report(success, "Failed to remove image docker-test:latest:"@, None, stderr),
                after_images(s),
            ),
        },
        CleanupStage::ListDangling => match o {
            OutcomeView::NotRun { error } => (
                fin,
                seq![],
                abort("Failed to list dangling images"@, error),
            ),
            OutcomeView::Ran { stdout, .. } => {
                let ids = lines_of(trimmed(stdout));
                if ids.len() > 0 {
                    go(
                        s,
                        CleanupStage::RemoveDangling,
                        seq![yd("Found dangling images:"@, debug_list(ids))],
                        rmi_cmd(ids),
                    )
                } else {
                    after(seq![y("No dangling images found."@)], prune(s))
                }
            },
        },
        CleanupStage::RemoveDangling => match o {
            OutcomeView::NotRun { error } => (
                fin,
                seq![],
                abort("Failed to remove dangling images"@, error),
            ),
            OutcomeView::Ran { success, stdout, stderr } => after(
                output_report(
                    y("Dangling images remove output:"@),
                    r("Dangling images remove error:"@),
                    stdout,
                    stderr,
                ) + failure_report(success, "Failed to remove dangling images:"@, None, stderr),
                prune(s),
            ),
        },
        CleanupStage::Prune => match o {
            OutcomeView::NotRun { error } => (
                fin,
                seq![],
                abort("Failed to prune dangling images"@, error),
            ),
            OutcomeView::Ran { stdout, stderr, .. } => go(
                s,
                CleanupStage::CountContainers,
                output_report(y("Image prune output:"@), r("Image prune error:"@), stdout, stderr),
                all_containers_cmd(),
            ),
        },
        CleanupStage::CountContainers => go(
            CleanupView { containers_left: printed_something(o), ..s },
            CleanupStage::CountImage,
            seq![],
            find_image_cmd(s.image_name),
        ),
        CleanupStage::CountImage => go(
            CleanupView { image_left: printed_something(o), ..s },
            CleanupStage::CountDefaultImage,
            seq![],
            find_image_cmd(default_image()),
        ),
        CleanupStage::CountDefaultImage => go(
            CleanupView { default_left: printed_something(o), ..s },
            CleanupStage::CountDangling,
            seq![],
            list_dangling_cmd(),
        ),
        CleanupStage::CountDangling => verdict(
            CleanupView { dangling_left: printed_something(o), ..s },
        ),
        CleanupStage::ShowContainers => {
            let shown = seq![r("Remaining containers:"@), p(listing(o))];
            if s.image_left || s.default_left || s.dangling_left {
                go(s, CleanupStage::ShowImages, shown, show_images_cmd())
            } else {
                (fin, shown, leftovers(s))
            }
        },
        CleanupStage::ShowImages => (
            fin,
            seq![r("Remaining images:"@), p(listing(o))],
            leftovers(s),
        ),
        CleanupStage::Finished => (s, seq![], CleanupActionView::Done(Ok(()))),
    }
}

impl Cleanup {
    /// Whether the cleanup is over.
    pub fn is_finished(&self) -> (r: bool)
        ensures
            r == (self@.stage == CleanupStage::Finished),
    {
        self.stage == CleanupStage::Finished
    }

    fn goto(&mut self, stage: CleanupStage, c: Command) -> (a: CleanupAction)
        ensures
            final(self)@ == (CleanupView { stage, ..old(self)@ }),
            a@ == CleanupActionView::Run(c@),
    {
        self.stage = stage;
        CleanupAction::Run(c)
    }

    fn finish(&mut self) -> (a: ())
        ensures
            final(self)@ == (CleanupView { stage: CleanupStage::Finished, ..old(self)@ }),
    {
        self.stage = CleanupStage::Finished;
    }

    /// Starts the cleanup of the container `container_name` and the images
    /// `image_id` and `image_name`.
    pub fn start(image_id: String, container_name: String, image_name: String) -> (r: (
        Cleanup,
        Vec<Line>,
        CleanupAction,
    ))
        ensures
            (r.0@, views(r.1@), r.2@) == cleanup_start(image_id@, container_name@, image_name@),
            cleanup_inv(r.0@),
    {
        let mut lines: Vec<Line> = Vec::new();
        let mut d = String::from_str("container_name=\"");
        append(&mut d, container_name.as_str());
        append(&mut d, "\", image_name=\"");
        append(&mut d, image_name.as_str());
        append(&mut d, "\", image_id=\"");
        append(&mut d, image_id.as_str());
        append(&mut d, "\"");
        tinted(&mut lines, Hue::Yellow, "Cleanup started:", d);
        let c = Cleanup {
            image_id,
            container_name,
            image_name,
            stage: CleanupStage::DaemonCheck,
            buildkit: Vec::new(),
            containers_left: false,
            image_left: false,
            default_left: false,
            dangling_left: false,
        };
        let st = cmd1("info");
        proof {
            assert(c.buildkit.deep_view() =~= Seq::<Seq<char>>::empty());
            assert(views(lines@) =~= cleanup_start(c.image_id@, c.container_name@, c.image_name@).1);
        }
        (c, lines, CleanupAction::Run(st))
    }

    fn after_buildkit(&mut self, out: &mut Vec<Line>) -> (a: CleanupAction)
        ensures
            final(self)@ == after_buildkit(old(self)@).0,
            views(final(out)@) == views(old(out)@) + after_buildkit(old(self)@).1,
            a@ == after_buildkit(old(self)@).2,
    {
        if !self.container_name.as_str().is_empty() {
            let c = find_container(&self.container_name);
            assert(views(out@) =~= views(old(out)@) + Seq::<LineView>::empty());
            self.goto(CleanupStage::FindContainer, c)
        } else {
            self.after_container(out)
        }
    }

    fn after_container(&mut self, out: &mut Vec<Line>) -> (a: CleanupAction)
        ensures
            final(self)@ == after_container(old(self)@).0,
            views(final(out)@) == views(old(out)@) + after_container(old(self)@).1,
            a@ == after_container(old(self)@).2,
    {
        if !self.image_name.as_str().is_empty() || !self.image_id.as_str().is_empty() {
            let c = cmd_named3("images", "-q", &self.image_id);
            assert(views(out@) =~= views(old(out)@) + Seq::<LineView>::empty());
            self.goto(CleanupStage::FindImageById, c)
        } else {
            self.after_images(out)
        }
    }

    fn remove_default(&mut self, out: &mut Vec<Line>) -> (a: CleanupAction)
        ensures
            final(self)@ == remove_default(old(self)@).0,
            views(final(out)@) == views(old(out)@) + remove_default(old(self)@).1,
            a@ == remove_default(old(self)@).2,
    {
        yellow(out, "Removing image docker-test:latest...");
        assert(views(out@) =~= views(old(out)@) + remove_default(old(self)@).1);
        self.goto(CleanupStage::RemoveDefaultImage, rmi_one("docker-test:latest"))
    }

    fn after_images(&mut self, out: &mut Vec<Line>) -> (a: CleanupAction)
        ensures
            final(self)@ == after_images(old(self)@).0,
            views(final(out)@) == views(old(out)@) + after_images(old(self)@).1,
            a@ == after_images(old(self)@).2,
    {
        yellow(out, "Cleaning up dangling images...");
        assert(views(out@) =~= views(old(out)@) + after_images(old(self)@).1);
        self.goto(CleanupStage::ListDangling, list_dangling())
    }

    fn prune(&mut self, out: &mut Vec<Line>) -> (a: CleanupAction)
        ensures
            final(self)@ == prune(old(self)@).0,
            views(final(out)@) == views(old(out)@) + prune(old(self)@).1,
            a@ == prune(old(self)@).2,
    {
        yellow(out, "Pruning dangling images...");
        assert(views(out@) =~= views(old(out)@) + prune(old(self)@).1);
        self.goto(CleanupStage::Prune, cmd3("image", "prune", "-f"))
    }

    fn verdict(&mut self, out: &mut Vec<Line>) -> (a: CleanupAction)
        ensures
            final(self)@ == verdict(old(self)@).0,
            views(final(out)@) == views(old(out)@) + verdict(old(self)@).1,
            a@ == verdict(old(self)@).2,
    {
        let any_image = self.image_left || self.default_left || self.dangling_left;
        if self.containers_left || any_image {
            let mut d = String::from_str("containers_exist=");
            append(&mut d, bool_string(self.containers_left).as_str());
            append(&mut d, ", image_exists=");
            append(&mut d, bool_string(self.image_left).as_str());
            append(&mut d, ", default_image_exists=");
            append(&mut d, bool_string(self.default_left).as_str());
            append(&mut d, ", dangling_exists=");
            append(&mut d, bool_string(self.dangling_left).as_str());
            tinted(out, Hue::Red, "Cleanup failed:", d);
            assert(views(out@) =~= views(old(out)@) + verdict(old(self)@).1);
            if self.containers_left {
                self.goto(CleanupStage::ShowContainers, cmd2("ps", "-a"))
            } else {
                self.goto(CleanupStage::ShowImages, cmd1("images"))
            }
        } else {
            emit_green(out, "Cleanup completed successfully");
            assert(views(out@) =~= views(old(out)@) + verdict(old(self)@).1);
            self.finish();
            CleanupAction::Done(Ok(()))
        }
    }

    fn leftovers(&self) -> (a: CleanupAction)
        ensures
            a@ == leftovers(self@),
    {
        CleanupAction::Done(
            Err(
                CleanupError::Leftovers {
                    containers: self.containers_left,
                    images: self.image_left,
                    default_image: self.default_left,
                    dangling: self.dangling_left,
                },
            ),
        )
    }

    #[verifier::rlimit(30)]
    fn on_daemon_check(&mut self, o: Outcome) -> (r: (Vec<Line>, CleanupAction))
        requires
            cleanup_inv(old(self)@),
            old(self)@.stage matches CleanupStage::DaemonCheck,
        ensures
            (final(self)@, views(r.0@), r.1@) == cleanup_next(old(self)@, o@),
            cleanup_inv(final(self)@),
    {
        let ghost s0 = self@;
        let mut out: Vec<Line> = Vec::new();
        let a = match o {
                Outcome::NotRun { error } => {
                    let mut d = error.clone();
                    append(
                        &mut d,
                        ". Ensure Docker is running and user has permissions (try 'sudo' or add user to 'docker' group).",
                    );
                    tinted(&mut out, Hue::Red, "Docker daemon check failed:", d);
                    self.finish();
                    CleanupAction::Done(Err(CleanupError::DaemonInaccessible(error)))
                },
                Outcome::Ran { success, stderr, .. } => {
                    if !success {
                        tinted(&mut out, Hue::Red, "Docker info failed:", stderr);
                        self.finish();
                        CleanupAction::Done(Err(CleanupError::DaemonError))
                    } else {
                        yellow(&mut out, "Cleaning up BuildKit containers...");
                        self.goto(CleanupStage::ListBuildkit, list_buildkit())
                    }
                },
            };
        proof {
            assert(views(out@) =~= cleanup_next(s0, o@).1);
        }
        (out, a)
    }

    #[verifier::rlimit(30)]
    fn on_list_buildkit(&mut self, o: Outcome) -> (r: (Vec<Line>, CleanupAction))
        requires
            cleanup_inv(old(self)@),
            old(self)@.stage matches CleanupStage::ListBuildkit,
        ensures
            (final(self)@, views(r.0@), r.1@) == cleanup_next(old(self)@, o@),
            cleanup_inv(final(self)@),
    {
        let ghost s0 = self@;
        let mut out: Vec<Line> = Vec::new();
        let a = match o {
                Outcome::NotRun { error } => {
                    self.finish();
                    abort_with(String::from_str("Failed to list BuildKit containers"), error)
                },
                Outcome::Ran { stdout, .. } => {
                    let t = trim(stdout.as_str());
                    let ids = split_lines(t.as_str());
                    if ids.len() > 0 {
                        let shown = debug_list_string(&ids);
                        tinted(&mut out, Hue::Yellow, "Found BuildKit containers:", shown);
                        let c = cmd_named2("stop", &ids[0]);
                        assert(ids.deep_view().len() == ids@.len());
                        self.buildkit = ids;
                        self.goto(CleanupStage::StopBuildkit(0), c)
                    } else {
                        yellow(&mut out, "No BuildKit containers found.");
                        assert(ids.deep_view().len() == ids@.len());
                        self.buildkit = ids;
                        self.after_buildkit(&mut out)
                    }
                },
            };
        proof {
            assert(views(out@) =~= cleanup_next(s0, o@).1);
        }
        (out, a)
    }

    #[verifier::rlimit(30)]
    fn on_stop_buildkit(&mut self, o: Outcome) -> (r: (Vec<Line>, CleanupAction))
        requires
            cleanup_inv(old(self)@),
            old(self)@.stage matches CleanupStage::StopBuildkit(_),
        ensures
            (final(self)@, views(r.0@), r.1@) == cleanup_next(old(self)@, o@),
            cleanup_inv(final(self)@),
    {
        let ghost s0 = self@;
        let mut out: Vec<Line> = Vec::new();
        let i = match self.stage { CleanupStage::StopBuildkit(i) => i, _ => 0 };
        let a = {
                assert(self.buildkit.deep_view().len() == self.buildkit@.len());
                let id = self.buildkit[i].clone();
                match o {
                    Outcome::NotRun { error } => {
                        let mut ctx = String::from_str("Failed to stop BuildKit container ");
                        append(&mut ctx, id.as_str());
                        self.finish();
                        abort_with(ctx, error)
                    },
                    Outcome::Ran { success, stderr, .. } => {
                        if success {
                            tinted(&mut out, Hue::Yellow, "Stopped BuildKit container:", id.clone());
                        } else {
                            let mut d = id.clone();
                            append(&mut d, ": ");
                            append(&mut d, stderr.as_str());
                            tinted(&mut out, Hue::Red, "Failed to stop BuildKit container:", d);
                        }
                        let c = cmd_named3("rm", "-f", &id);
                        self.goto(CleanupStage::RemoveBuildkit(i), c)
                    },
                }
            };
        proof {
            assert(views(out@) =~= cleanup_next(s0, o@).1);
        }
        (out, a)
    }

    #[verifier::rlimit(30)]
    fn on_remove_buildkit(&mut self, o: Outcome) -> (r: (Vec<Line>, CleanupAction))
        requires
            cleanup_inv(old(self)@),
            old(self)@.stage matches CleanupStage::RemoveBuildkit(_),
        ensures
            (final(self)@, views(r.0@), r.1@) == cleanup_next(old(self)@, o@),
            cleanup_inv(final(self)@),
    {
        let ghost s0 = self@;
        let mut out: Vec<Line> = Vec::new();
        let i = match self.stage { CleanupStage::RemoveBuildkit(i) => i, _ => 0 };
        let a = {
                assert(self.buildkit.deep_view().len() == self.buildkit@.len());
                let id = self.buildkit[i].clone();
                match o {
                    Outcome::NotRun { error } => {
                        let mut ctx = String::from_str("Failed to remove BuildKit container ");
                        append(&mut ctx, id.as_str());
                        self.finish();
                        abort_with(ctx, error)
                    },
                    Outcome::Ran { success, stderr, .. } => {
                        if success {
                            tinted(&mut out, Hue::Yellow, "Removed BuildKit container:", id.clone());
                        } else {
                            let mut d = id.clone();
                            append(&mut d, ": ");
                            append(&mut d, stderr.as_str());
                            tinted(&mut out, Hue::Red, "Failed to remove BuildKit container:", d);
                        }
                        assert(self.buildkit.deep_view().len() == self.buildkit@.len());
                        let n = self.buildkit.len();
                        if i + 1 < n {
                            let c = cmd_named2("stop", &self.buildkit[i + 1]);
                            self.goto(CleanupStage::StopBuildkit(i + 1), c)
                        } else {
                            self.after_buildkit(&mut out)
                        }
                    },
                }
            };
        proof {
            assert(views(out@) =~= cleanup_next(s0, o@).1);
        }
        (out, a)
    }

    #[verifier::rlimit(30)]
    fn on_find_container(&mut self, o: Outcome) -> (r: (Vec<Line>, CleanupAction))
        requires
            cleanup_inv(old(self)@),
            old(self)@.stage matches CleanupStage::FindContainer,
        ensures
            (final(self)@, views(r.0@), r.1@) == cleanup_next(old(self)@, o@),
            cleanup_inv(final(self)@),
    {
        let ghost s0 = self@;
        let mut out: Vec<Line> = Vec::new();
        let a = {
                let exists = o.printed_something();
                let mut d = self.container_name.clone();
                append(&mut d, " exists: ");
                append(&mut d, bool_string(exists).as_str());
                tinted(&mut out, Hue::Yellow, "Container:", d);
                if exists {
                    tinted(&mut out, Hue::Yellow, "Stopping container:", self.container_name.clone());
                    let c = cmd_named2("stop", &self.container_name);
                    self.goto(CleanupStage::StopContainer, c)
                } else {
                    let mut d2 = self.container_name.clone();
                    append(&mut d2, " does not exist, skipping removal.");
                    tinted(&mut out, Hue::Yellow, "Container:", d2);
                    self.after_container(&mut out)
                }
            };
        proof {
            assert(views(out@) =~= cleanup_next(s0, o@).1);
        }
        (out, a)
    }

    #[verifier::rlimit(30)]
    fn on_stop_container(&mut self, o: Outcome) -> (r: (Vec<Line>, CleanupAction))
        requires
            cleanup_inv(old(self)@),
            old(self)@.stage matches CleanupStage::StopContainer,
        ensures
            (final(self)@, views(r.0@), r.1@) == cleanup_next(old(self)@, o@),
            cleanup_inv(final(self)@),
    {
        let ghost s0 = self@;
        let mut out: Vec<Line> = Vec::new();
        let a = match o {
                Outcome::NotRun { error } => {
                    self.finish();
                    abort_with(String::from_str("Failed to stop container"), error)
                },
                Outcome::Ran { success, stdout, stderr } => {
                    emit_output_report(
                        &mut out,
                        yellow_line("Container stop output:"),
                        red_line("Container stop error:"),
                        &stdout,
                        &stderr,
                    );
                    emit_failure_report(
                        &mut out,
                        success,
                        "Failed to stop container:",
                        Some(&self.container_name),
                        &stderr,
                    );
                    tinted(&mut out, Hue::Yellow, "Removing container:", self.container_name.clone());
                    let c = cmd_named3("rm", "-f", &self.container_name);
                    self.goto(CleanupStage::RemoveContainer, c)
                },
            };
        proof {
            assert(views(out@) =~= cleanup_next(s0, o@).1);
        }
        (out, a)
    }

    #[verifier::rlimit(30)]
    fn on_remove_container(&mut self, o: Outcome) -> (r: (Vec<Line>, CleanupAction))
        requires
            cleanup_inv(old(self)@),
            old(self)@.stage matches CleanupStage::RemoveContainer,
        ensures
            (final(self)@, views(r.0@), r.1@) == cleanup_next(old(self)@, o@),
            cleanup_inv(final(self)@),
    {
        let ghost s0 = self@;
        let mut out: Vec<Line> = Vec::new();
        let a = match o {
                Outcome::NotRun { error } => {
                    let mut ctx = String::from_str("Failed to remove container: ");
                    append(&mut ctx, self.container_name.as_str());
                    self.finish();
                    abort_with(ctx, error)
                },
                Outcome::Ran { success, stdout, stderr } => {
                    emit_output_report(
                        &mut out,
                        yellow_line("Container remove output:"),
                        red_line("Container remove error:"),
                        &stdout,
                        &stderr,
                    );
                    emit_failure_report(
                        &mut out,
                        success,
                        "Failed to remove container:",
                        Some(&self.container_name),
                        &stderr,
                    );
                    self.after_container(&mut out)
                },
            };
        proof {
            assert(views(out@) =~= cleanup_next(s0, o@).1);
        }
        (out, a)
    }

    #[verifier::rlimit(30)]
    fn on_find_image_by_id(&mut self, o: Outcome) -> (r: (Vec<Line>, CleanupAction))
        requires
            cleanup_inv(old(self)@),
            old(self)@.stage matches CleanupStage::FindImageById,
        ensures
            (final(self)@, views(r.0@), r.1@) == cleanup_next(old(self)@, o@),
            cleanup_inv(final(self)@),
    {
        let ghost s0 = self@;
        let mut out: Vec<Line> = Vec::new();
        let a = {
                let exists = o.printed_something();
                let mut d = self.image_id.clone();
                append(&mut d, " exists: ");
                append(&mut d, bool_string(exists).as_str());
                tinted(&mut out, Hue::Yellow, "Image ID:", d);
                if exists {
                    tinted(&mut out, Hue::Yellow, "Removing image by ID:", self.image_id.clone());
                    let c = rmi_one(self.image_id.as_str());
                    self.goto(CleanupStage::RemoveImageById, c)
                } else {
                    let c = cmd_named3("images", "-q", &self.image_name);
                    self.goto(CleanupStage::FindImageByName, c)
                }
            };
        proof {
            assert(views(out@) =~= cleanup_next(s0, o@).1);
        }
        (out, a)
    }

    #[verifier::rlimit(30)]
    fn on_remove_image_by_id(&mut self, o: Outcome) -> (r: (Vec<Line>, CleanupAction))
        requires
            cleanup_inv(old(self)@),
            old(self)@.stage matches CleanupStage::RemoveImageById,
        ensures
            (final(self)@, views(r.0@), r.1@) == cleanup_next(old(self)@, o@),
            cleanup_inv(final(self)@),
    {
        let ghost s0 = self@;
        let mut out: Vec<Line> = Vec::new();
        let a = match o {
                Outcome::NotRun { error } => {
                    let mut ctx = String::from_str("Failed to remove image by ID: ");
                    append(&mut ctx, self.image_id.as_str());
                    self.finish();
                    abort_with(ctx, error)
                },
                Outcome::Ran { success, stdout, stderr } => {
                    emit_output_report(
                        &mut out,
                        yellow_line_with("Image remove output (ID:", self.image_id.clone()),
                        red_line_with("Image remove error (ID:", self.image_id.clone()),
                        &stdout,
                        &stderr,
                    );
                    emit_failure_report(
                        &mut out,
                        success,
                        "Failed to remove image by ID:",
                        Some(&self.image_id),
                        &stderr,
                    );
                    let c = cmd_named3("images", "-q", &self.image_name);
                    self.goto(CleanupStage::FindImageByName, c)
                },
            };
        proof {
            assert(views(out@) =~= cleanup_next(s0, o@).1);
        }
        (out, a)
    }

    #[verifier::rlimit(30)]
    fn on_find_image_by_name(&mut self, o: Outcome) -> (r: (Vec<Line>, CleanupAction))
        requires
            cleanup_inv(old(self)@),
            old(self)@.stage matches CleanupStage::FindImageByName,
        ensures
            (final(self)@, views(r.0@), r.1@) == cleanup_next(old(self)@, o@),
            cleanup_inv(final(self)@),
    {
        let ghost s0 = self@;
        let mut out: Vec<Line> = Vec::new();
        let a = {
                let exists = o.printed_something();
                let mut d = self.image_name.clone();
                append(&mut d, " exists: ");
                append(&mut d, bool_string(exists).as_str());
                tinted(&mut out, Hue::Yellow, "Image name:", d);
                if exists {
                    tinted(&mut out, Hue::Yellow, "Removing image by name:", self.image_name.clone());
                    let c = rmi_one(self.image_name.as_str());
                    self.goto(CleanupStage::RemoveImageByName, c)
                } else {
                    self.remove_default(&mut out)
                }
            };
        proof {
            assert(views(out@) =~= cleanup_next(s0, o@).1);
        }
        (out, a)
    }

    #[verifier::rlimit(30)]
    fn on_remove_image_by_name(&mut self, o: Outcome) -> (r: (Vec<Line>, CleanupAction))
        requires
            cleanup_inv(old(self)@),
            old(self)@.stage matches CleanupStage::RemoveImageByName,
        ensures
            (final(self)@, views(r.0@), r.1@) == cleanup_next(old(self)@, o@),
            cleanup_inv(final(self)@),
    {
        let ghost s0 = self@;
        let mut out: Vec<Line> = Vec::new();
        let a = match o {
                Outcome::NotRun { error } => {
                    let mut ctx = String::from_str("Failed to remove image by name: ");
                    append(&mut ctx, self.image_name.as_str());
                    self.finish();
                    abort_with(ctx, error)
                },
                Outcome::Ran { success, stdout, stderr } => {
                    emit_output_report(
                        &mut out,
                        yellow_line_with("Image remove output (name:", self.image_name.clone()),
                        red_line_with("Image remove error (name:", self.image_name.clone()),
                        &stdout,
                        &stderr,
                    );
                    emit_failure_report(
                        &mut out,
                        success,
                        "Failed to remove image by name:",
                        Some(&self.image_name),
                        &stderr,
                    );
                    self.remove_default(&mut out)
                },
            };
        proof {
            assert(views(out@) =~= cleanup_next(s0, o@).1);
        }
        (out, a)
    }

    #[verifier::rlimit(30)]
    fn on_remove_default_image(&mut self, o: Outcome) -> (r: (Vec<Line>, CleanupAction))
        requires
            cleanup_inv(old(self)@),
            old(self)@.stage matches CleanupStage::RemoveDefaultImage,
        ensures
            (final(self)@, views(r.0@), r.1@) == cleanup_next(old(self)@, o@),
            cleanup_inv(final(self)@),
    {
        let ghost s0 = self@;
        let mut out: Vec<Line> = Vec::new();
        let a = match o {
                Outcome::NotRun { error } => {
                    self.finish();
                    abort_with(String::from_str("Failed to remove image docker-test:latest"), error)
                },
                Outcome::Ran { success, stdout, stderr } => {
                    emit_output_report(
                        &mut out,
                        yellow_line("Image remove output (docker-test:latest):"),
                        red_line("Image remove error (docker-test:latest):"),
                        &stdout,
                        &stderr,
                    );
                    emit_failure_report(
                        &mut out,
                        success,
                        "Failed to remove image docker-test:latest:",
                        None,
                        &stderr,
                    );
                    self.after_images(&mut out)
                },
            };
        proof {
            assert(views(out@) =~= cleanup_next(s0, o@).1);
        }
        (out, a)
    }

    #[verifier::rlimit(30)]
    fn on_list_dangling(&mut self, o: Outcome) -> (r: (Vec<Line>, CleanupAction))
        requires
            cleanup_inv(old(self)@),
            old(self)@.stage matches CleanupStage::ListDangling,
        ensures
            (final(self)@, views(r.0@), r.1@) == cleanup_next(old(self)@, o@),
            cleanup_inv(final(self)@),
    {
        let ghost s0 = self@;
        let mut out: Vec<Line> = Vec::new();
        let a = match o {
                Outcome::NotRun { error } => {
                    self.finish();
                    abort_with(String::from_str("Failed to list dangling images"), error)
                },
                Outcome::Ran { stdout, .. } => {
                    let t = trim(stdout.as_str());
                    let ids = split_lines(t.as_str());
                    if ids.len() > 0 {
                        let shown = debug_list_string(&ids);
                        tinted(&mut out, Hue::Yellow, "Found dangling images:", shown);
                        let c = rmi_all(&ids);
                        self.goto(CleanupStage::RemoveDangling, c)
                    } else {
                        yellow(&mut out, "No dangling images found.");
                        self.prune(&mut out)
                    }
                },
            };
        proof {
            assert(views(out@) =~= cleanup_next(s0, o@).1);
        }
        (out, a)
    }

    #[verifier::rlimit(30)]
    fn on_remove_dangling(&mut self, o: Outcome) -> (r: (Vec<Line>, CleanupAction))
        requires
            cleanup_inv(old(self)@),
            old(self)@.stage matches CleanupStage::RemoveDangling,
        ensures
            (final(self)@, views(r.0@), r.1@) == cleanup_next(old(self)@, o@),
            cleanup_inv(final(self)@),
    {
        let ghost s0 = self@;
        let mut out: Vec<Line> = Vec::new();
        let a = match o {
                Outcome::NotRun { error } => {
                    self.finish();
                    abort_with(String::from_str("Failed to remove dangling images"), error)
                },
                Outcome::Ran { success, stdout, stderr } => {
                    emit_output_report(
                        &mut out,
                        yellow_line("Dangling images remove output:"),
                        red_line("Dangling images remove error:"),
                        &stdout,
                        &stderr,
                    );
                    emit_failure_report(
                        &mut out,
                        success,
                        "Failed to remove dangling images:",
                        None,
                        &stderr,
                    );
                    self.prune(&mut out)
                },
            };
        proof {
            assert(views(out@) =~= cleanup_next(s0, o@).1);
        }
        (out, a)
    }

    #[verifier::rlimit(30)]
    fn on_prune(&mut self, o: Outcome) -> (r: (Vec<Line>, CleanupAction))
        requires
            cleanup_inv(old(self)@),
            old(self)@.stage matches CleanupStage::Prune,
        ensures
            (final(self)@, views(r.0@), r.1@) == cleanup_next(old(self)@, o@),
            cleanup_inv(final(self)@),
    {
        let ghost s0 = self@;
        let mut out: Vec<Line> = Vec::new();
        let a = match o {
                Outcome::NotRun { error } => {
                    self.finish();
                    abort_with(String::from_str("Failed to prune dangling images"), error)
                },
                Outcome::Ran { stdout, stderr, .. } => {
                    emit_output_report(
                        &mut out,
                        yellow_line("Image prune output:"),
                        red_line("Image prune error:"),
                        &stdout,
                        &stderr,
                    );
                    self.goto(CleanupStage::CountContainers, cmd3("ps", "-a", "-q"))
                },
            };
        proof {
            assert(views(out@) =~= cleanup_next(s0, o@).1);
        }
        (out, a)
    }

    #[verifier::rlimit(30)]
    fn on_count_containers(&mut self, o: Outcome) -> (r: (Vec<Line>, CleanupAction))
        requires
            cleanup_inv(old(self)@),
            old(self)@.stage matches CleanupStage::CountContainers,
        ensures
            (final(self)@, views(r.0@), r.1@) == cleanup_next(old(self)@, o@),
            cleanup_inv(final(self)@),
    {
        let ghost s0 = self@;
        let mut out: Vec<Line> = Vec::new();
        let a = {
                self.containers_left = o.printed_something();
                let c = cmd_named3("images", "-q", &self.image_name);
                self.goto(CleanupStage::CountImage, c)
            };
        proof {
            assert(views(out@) =~= cleanup_next(s0, o@).1);
        }
        (out, a)
    }

    #[verifier::rlimit(30)]
    fn on_count_image(&mut self, o: Outcome) -> (r: (Vec<Line>, CleanupAction))
        requires
            cleanup_inv(old(self)@),
            old(self)@.stage matches CleanupStage::CountImage,
        ensures
            (final(self)@, views(r.0@), r.1@) == cleanup_next(old(self)@, o@),
            cleanup_inv(final(self)@),
    {
        let ghost s0 = self@;
        let mut out: Vec<Line> = Vec::new();
        let a = {
                self.image_left = o.printed_something();
                self.goto(CleanupStage::CountDefaultImage, cmd3("images", "-q", "docker-test:latest"))
            };
        proof {
            assert(views(out@) =~= cleanup_next(s0, o@).1);
        }
        (out, a)
    }

    #[verifier::rlimit(30)]
    fn on_count_default_image(&mut self, o: Outcome) -> (r: (Vec<Line>, CleanupAction))
        requires
            cleanup_inv(old(self)@),
            old(self)@.stage matches CleanupStage::CountDefaultImage,
        ensures
            (final(self)@, views(r.0@), r.1@) == cleanup_next(old(self)@, o@),
            cleanup_inv(final(self)@),
    {
        let ghost s0 = self@;
        let mut out: Vec<Line> = Vec::new();
        let a = {
                self.default_left = o.printed_something();
                self.goto(CleanupStage::CountDangling, list_dangling())
            };
        proof {
            assert(views(out@) =~= cleanup_next(s0, o@).1);
        }
        (out, a)
    }

    #[verifier::rlimit(30)]
    fn on_count_dangling(&mut self, o: Outcome) -> (r: (Vec<Line>, CleanupAction))
        requires
            cleanup_inv(old(self)@),
            old(self)@.stage matches CleanupStage::CountDangling,
        ensures
            (final(self)@, views(r.0@), r.1@) == cleanup_next(old(self)@, o@),
            cleanup_inv(final(self)@),
    {
        let ghost s0 = self@;
        let mut out: Vec<Line> = Vec::new();
        let a = {
                self.dangling_left = o.printed_something();
                self.verdict(&mut out)
            };
        proof {
            assert(views(out@) =~= cleanup_next(s0, o@).1);
        }
        (out, a)
    }

    #[verifier::rlimit(30)]
    fn on_show_containers(&mut self, o: Outcome) -> (r: (Vec<Line>, CleanupAction))
        requires
            cleanup_inv(old(self)@),
            old(self)@.stage matches CleanupStage::ShowContainers,
        ensures
            (final(self)@, views(r.0@), r.1@) == cleanup_next(old(self)@, o@),
            cleanup_inv(final(self)@),
    {
        let ghost s0 = self@;
        let mut out: Vec<Line> = Vec::new();
        let a = {
                red(&mut out, "Remaining containers:");
                let shown = match &o {
                    Outcome::Ran { stdout, .. } => stdout.clone(),
                    Outcome::NotRun { .. } => String::new(),
                };
                plain(&mut out, shown);
                if self.image_left || self.default_left || self.dangling_left {
                    self.goto(CleanupStage::ShowImages, cmd1("images"))
                } else {
                    self.finish();
                    self.leftovers()
                }
            };
        proof {
            assert(views(out@) =~= cleanup_next(s0, o@).1);
        }
        (out, a)
    }

    #[verifier::rlimit(30)]
    fn on_show_images(&mut self, o: Outcome) -> (r: (Vec<Line>, CleanupAction))
        requires
            cleanup_inv(old(self)@),
            old(self)@.stage matches CleanupStage::ShowImages,
        ensures
            (final(self)@, views(r.0@), r.1@) == cleanup_next(old(self)@, o@),
            cleanup_inv(final(self)@),
    {
        let ghost s0 = self@;
        let mut out: Vec<Line> = Vec::new();
        let a = {
                red(&mut out, "Remaining images:");
                let shown = match &o {
                    Outcome::Ran { stdout, .. } => stdout.clone(),
                    Outcome::NotRun { .. } => String::new(),
                };
                plain(&mut out, shown);
                self.finish();
                self.leftovers()
            };
        proof {
            assert(views(out@) =~= cleanup_next(s0, o@).1);
        }
        (out, a)
    }

    /// Takes the outcome `o` of the command last asked for, and returns the
    /// lines to print and what to do next.
    pub fn step(&mut self, o: Outcome) -> (r: (Vec<Line>, CleanupAction))
        requires
            cleanup_inv(old(self)@),
            old(self)@.stage != CleanupStage::Finished,
        ensures
            (final(self)@, views(r.0@), r.1@) == cleanup_next(old(self)@, o@),
            cleanup_inv(final(self)@),
    {
        match self.stage {
            CleanupStage::DaemonCheck => self.on_daemon_check(o),
            CleanupStage::ListBuildkit => self.on_list_buildkit(o),
            CleanupStage::StopBuildkit(_) => self.on_stop_buildkit(o),
            CleanupStage::RemoveBuildkit(_) => self.on_remove_buildkit(o),
            CleanupStage::FindContainer => self.on_find_container(o),
            CleanupStage::StopContainer => self.on_stop_container(o),
            CleanupStage::RemoveContainer => self.on_remove_container(o),
            CleanupStage::FindImageById => self.on_find_image_by_id(o),
            CleanupStage::RemoveImageById => self.on_remove_image_by_id(o),
            CleanupStage::FindImageByName => self.on_find_image_by_name(o),
            CleanupStage::RemoveImageByName => self.on_remove_image_by_name(o),
            CleanupStage::RemoveDefaultImage => self.on_remove_default_image(o),
            CleanupStage::ListDangling => self.on_list_dangling(o),
            CleanupStage::RemoveDangling => self.on_remove_dangling(o),
            CleanupStage::Prune => self.on_prune(o),
            CleanupStage::CountContainers => self.on_count_containers(o),
            CleanupStage::CountImage => self.on_count_image(o),
            CleanupStage::CountDefaultImage => self.on_count_default_image(o),
            CleanupStage::CountDangling => self.on_count_dangling(o),
            CleanupStage::ShowContainers => self.on_show_containers(o),
            CleanupStage::ShowImages => self.on_show_images(o),
            CleanupStage::Finished => (Vec::new(), CleanupAction::Done(Ok(()))),
        }
    }

}

fn emit_green(out: &mut Vec<Line>, label: &str)
    ensures
        views(final(out)@) == views(old(out)@).push(say(Some(Hue::Green), label@)),
{
    crate::report::emit_say(out, Some(Hue::Green), String::from_str(label));
}

// ---------------------------------------------------------------------------
// Laws
// ---------------------------------------------------------------------------

/// How far a cleanup is from its end: the phase (counting down to 0 when
/// finished), and within the BuildKit phase the commands still to run.
pub open spec fn cleanup_measure(s: CleanupView) -> (nat, nat) {
    match s.stage {
        CleanupStage::DaemonCheck => (20, 0),
        CleanupStage::ListBuildkit => (19, 0),
        CleanupStage::StopBuildkit(i) => (18, (2 * (s.buildkit.len() - i)) as nat),
        CleanupStage::RemoveBuildkit(i) => (18, (2 * (s.buildkit.len() - i) - 1) as nat),
        CleanupStage::FindContainer => (17, 0),
        CleanupStage::StopContainer => (16, 0),
        CleanupStage::RemoveContainer => (15, 0),
        CleanupStage::FindImageById => (14, 0),
        CleanupStage::RemoveImageById => (13, 0),
        CleanupStage::FindImageByName => (12, 0),
        CleanupStage::RemoveImageByName => (11, 0),
        CleanupStage::RemoveDefaultImage => (10, 0),
        CleanupStage::ListDangling => (9, 0),
        CleanupStage::RemoveDangling => (8, 0),
        CleanupStage::Prune => (7, 0),
        CleanupStage::CountContainers => (6, 0),
        CleanupStage::CountImage => (5, 0),
        CleanupStage::CountDefaultImage => (4, 0),
        CleanupStage::CountDangling => (3, 0),
        CleanupStage::ShowContainers => (2, 0),
        CleanupStage::ShowImages => (1, 0),
        CleanupStage::Finished => (0, 0),
    }
}

/// `a` comes strictly before `b` in lexicographic order.
pub open spec fn lex_below(a: (nat, nat), b: (nat, nat)) -> bool {
    a.0 < b.0 || (a.0 == b.0 && a.1 < b.1)
}

/// Every step of a cleanup moves it strictly closer to its end and keeps
/// its invariant, so a cleanup always finishes; and it finishes exactly when
/// it says it is done.  (The bounds on lengths hold of every string and
/// vector a program can hold.)
#[verifier::rlimit(80)]
pub proof fn law_cleanup_progresses(s: CleanupView, o: OutcomeView)
    requires
        cleanup_inv(s),
        s.stage != CleanupStage::Finished,
        s.buildkit.len() <= usize::MAX,
        o matches OutcomeView::Ran { stdout, .. } ==> stdout.len() <= usize::MAX,
    ensures
        cleanup_inv(cleanup_next(s, o).0),
        cleanup_next(s, o).0.buildkit.len() <= usize::MAX,
        lex_below(cleanup_measure(cleanup_next(s, o).0), cleanup_measure(s)),
        (cleanup_next(s, o).0.stage == CleanupStage::Finished) <==> (cleanup_next(s, o).2 is Done),
{
    match s.stage {
        CleanupStage::ListBuildkit => {
            if let OutcomeView::Ran { stdout, .. } = o {
                lemma_trimmed_len(stdout);
                lemma_lines_len(trimmed(stdout));
            }
        },
        CleanupStage::DaemonCheck => {},
        CleanupStage::StopBuildkit(_) => {},
        CleanupStage::RemoveBuildkit(_) => {},
        CleanupStage::FindContainer => {},
        CleanupStage::StopContainer => {},
        CleanupStage::RemoveContainer => {},
        CleanupStage::FindImageById => {},
        CleanupStage::RemoveImageById => {},
        CleanupStage::FindImageByName => {},
        CleanupStage::RemoveImageByName => {},
        CleanupStage::RemoveDefaultImage => {},
        CleanupStage::ListDangling => {},
        CleanupStage::RemoveDangling => {},
        CleanupStage::Prune => {},
        CleanupStage::CountContainers => {},
        CleanupStage::CountImage => {},
        CleanupStage::CountDefaultImage => {},
        CleanupStage::CountDangling => {},
        CleanupStage::ShowContainers => {},
        CleanupStage::ShowImages => {},
        CleanupStage::Finished => {},
    }
}

/// A cleanup reports success only when the last of the final checks is in
/// and none of them found a container, the image, the default image or a
/// dangling image left.
pub proof fn law_cleanup_success_means_clean(s: CleanupView, o: OutcomeView)
    requires
        cleanup_inv(s),
        s.stage != CleanupStage::Finished,
        cleanup_next(s, o).2 == CleanupActionView::Done(Ok(())),
    ensures
        s.stage == CleanupStage::CountDangling,
        !s.containers_left,
        !s.image_left,
        !s.default_left,
        !printed_something(o),
{
}

/// A cleanup gives up early only when a command cannot be started or the
/// Docker daemon check fails: a stop or removal that exits with a failure
/// status is reported and the cleanup goes on.
pub proof fn law_cleanup_tolerates_failed_removals(s: CleanupView, o: OutcomeView)
    requires
        cleanup_inv(s),
        o is Ran,
        s.stage != CleanupStage::DaemonCheck,
        s.stage != CleanupStage::CountDangling,
        s.stage != CleanupStage::ShowContainers,
        s.stage != CleanupStage::ShowImages,
        s.stage != CleanupStage::Finished,
    ensures
        cleanup_next(s, o).2 is Run,
{
}

/// Each BuildKit container found is stopped and then removed, one after the
/// other, in the order they were listed.
pub proof fn law_cleanup_handles_each_buildkit(s: CleanupView, o: OutcomeView)
    requires
        cleanup_inv(s),
        o is Ran,
    ensures
        s.stage matches CleanupStage::StopBuildkit(i) ==> {
            &&& cleanup_next(s, o).0.stage == CleanupStage::RemoveBuildkit(i)
            &&& cleanup_next(s, o).2 == CleanupActionView::Run(rm_cmd(s.buildkit[i as int]))
        },
        s.stage matches CleanupStage::RemoveBuildkit(i) ==> (i + 1 < s.buildkit.len() ==> {
            &&& cleanup_next(s, o).0.stage == CleanupStage::StopBuildkit((i + 1) as usize)
            &&& cleanup_next(s, o).2 == CleanupActionView::Run(stop_cmd(s.buildkit[i + 1]))
        }),
{
}

/// Every step keeps the cleanup's invariant, and the cleanup is over exactly
/// when it says it is done.
#[verifier::rlimit(80)]
pub proof fn law_cleanup_inv_kept(s: CleanupView, o: OutcomeView)
    requires
        cleanup_inv(s),
        s.stage != CleanupStage::Finished,
    ensures
        cleanup_inv(cleanup_next(s, o).0),
        (cleanup_next(s, o).0.stage == CleanupStage::Finished) <==> (cleanup_next(s, o).2 is Done),
{
    match s.stage {
        CleanupStage::DaemonCheck => {},
        CleanupStage::ListBuildkit => {},
        CleanupStage::StopBuildkit(_) => {},
        CleanupStage::RemoveBuildkit(_) => {},
        CleanupStage::FindContainer => {},
        CleanupStage::StopContainer => {},
        CleanupStage::RemoveContainer => {},
        CleanupStage::FindImageById => {},
        CleanupStage::RemoveImageById => {},
        CleanupStage::FindImageByName => {},
        CleanupStage::RemoveImageByName => {},
        CleanupStage::RemoveDefaultImage => {},
        CleanupStage::ListDangling => {},
        CleanupStage::RemoveDangling => {},
        CleanupStage::Prune => {},
        CleanupStage::CountContainers => {},
        CleanupStage::CountImage => {},
        CleanupStage::CountDefaultImage => {},
        CleanupStage::CountDangling => {},
        CleanupStage::ShowContainers => {},
        CleanupStage::ShowImages => {},
        CleanupStage::Finished => {},
    }
}

/// A step never changes which container and images are being cleaned up.
#[verifier::rlimit(80)]
pub proof fn law_cleanup_keeps_targets(s: CleanupView, o: OutcomeView)
    ensures
        cleanup_next(s, o).0.image_id == s.image_id,
        cleanup_next(s, o).0.container_name == s.container_name,
        cleanup_next(s, o).0.image_name == s.image_name,
{
    match s.stage {
        CleanupStage::DaemonCheck => {},
        CleanupStage::ListBuildkit => {},
        CleanupStage::StopBuildkit(_) => {},
        CleanupStage::RemoveBuildkit(_) => {},
        CleanupStage::FindContainer => {},
        CleanupStage::StopContainer => {},
        CleanupStage::RemoveContainer => {},
        CleanupStage::FindImageById => {},
        CleanupStage::RemoveImageById => {},
        CleanupStage::FindImageByName => {},
        CleanupStage::RemoveImageByName => {},
        CleanupStage::RemoveDefaultImage => {},
        CleanupStage::ListDangling => {},
        CleanupStage::RemoveDangling => {},
        CleanupStage::Prune => {},
        CleanupStage::CountContainers => {},
        CleanupStage::CountImage => {},
        CleanupStage::CountDefaultImage => {},
        CleanupStage::CountDangling => {},
        CleanupStage::ShowContainers => {},
        CleanupStage::ShowImages => {},
        CleanupStage::Finished => {},
    }
}

/// The command a cleanup in state `s` waits on.  (The removal of dangling
/// images names images the state does not keep; it is given as `rmi -f`.)
pub open spec fn pending(s: CleanupView) -> CommandView {
    match s.stage {
        CleanupStage::DaemonCheck => info_cmd(),
        CleanupStage::ListBuildkit => list_buildkit_cmd(),
        CleanupStage::StopBuildkit(i) => stop_cmd(s.buildkit[i as int]),
        CleanupStage::RemoveBuildkit(i) => rm_cmd(s.buildkit[i as int]),
        CleanupStage::FindContainer => find_container_cmd(s.container_name),
        CleanupStage::StopContainer => stop_cmd(s.container_name),
        CleanupStage::RemoveContainer => rm_cmd(s.container_name),
        CleanupStage::FindImageById => find_image_cmd(s.image_id),
        CleanupStage::RemoveImageById => rmi_cmd(seq![s.image_id]),
        CleanupStage::FindImageByName => find_image_cmd(s.image_name),
        CleanupStage::RemoveImageByName => rmi_cmd(seq![s.image_name]),
        CleanupStage::RemoveDefaultImage => rmi_cmd(seq![default_image()]),
        CleanupStage::ListDangling => list_dangling_cmd(),
        CleanupStage::RemoveDangling => rmi_cmd(seq![]),
        CleanupStage::Prune => prune_cmd(),
        CleanupStage::CountContainers => all_containers_cmd(),
        CleanupStage::CountImage => find_image_cmd(s.image_name),
        CleanupStage::CountDefaultImage => find_image_cmd(default_image()),
        CleanupStage::CountDangling => list_dangling_cmd(),
        CleanupStage::ShowContainers => show_containers_cmd(),
        CleanupStage::ShowImages => show_images_cmd(),
        CleanupStage::Finished => info_cmd(),
    }
}

/// A Docker host, answering each command by `docker`, that is already clean
/// for the image `image`: the daemon is up, every command starts, and the
/// four listings the cleanup ends with print nothing.  This is the host a
/// successful cleanup leaves behind (`law_cleanup_success_means_clean`)
/// when nothing changes it afterwards.
pub open spec fn clean_host(docker: spec_fn(CommandView) -> OutcomeView, image: Seq<char>) -> bool {
    &&& forall|c: CommandView|
        #[trigger] docker(c) matches OutcomeView::Ran { stdout, .. } && stdout.len() <= usize::MAX
    &&& docker(info_cmd()) matches OutcomeView::Ran { success, .. } && success
    &&& !printed_something(docker(all_containers_cmd()))
    &&& !printed_something(docker(find_image_cmd(image)))
    &&& !printed_something(docker(find_image_cmd(default_image())))
    &&& !printed_something(docker(list_dangling_cmd()))
}

/// The states a cleanup on a clean host passes through: no leftover found,
/// and never the stages that only follow leftovers or dangling images.
pub open spec fn calm(s: CleanupView) -> bool {
    &&& cleanup_inv(s)
    &&& s.buildkit.len() <= usize::MAX
    &&& !s.containers_left
    &&& !s.image_left
    &&& !s.default_left
    &&& s.stage != CleanupStage::RemoveDangling
    &&& s.stage != CleanupStage::ShowContainers
    &&& s.stage != CleanupStage::ShowImages
}

/// The result of a cleanup from state `s` with pending action `a` against
/// the host `docker`, if it ends within `fuel` steps.
pub open spec fn drive(
    s: CleanupView,
    a: CleanupActionView,
    docker: spec_fn(CommandView) -> OutcomeView,
    fuel: nat,
) -> Option<Result<(), CleanupErrorView>>
    decreases fuel,
{
    match a {
        CleanupActionView::Done(r) => Some(r),
        CleanupActionView::Run(c) => if fuel == 0 {
            None
        } else {
            let (t, _, next) = cleanup_next(s, docker(c));
            drive(t, next, docker, (fuel - 1) as nat)
        },
    }
}

#[verifier::rlimit(80)]
proof fn lemma_calm_step(s: CleanupView, docker: spec_fn(CommandView) -> OutcomeView)
    requires
        calm(s),
        s.stage != CleanupStage::Finished,
        clean_host(docker, s.image_name),
    ensures
        ({
            let (t, _, a) = cleanup_next(s, docker(pending(s)));
            ||| a == CleanupActionView::Done(Ok(()))
            ||| (a == CleanupActionView::Run(pending(t)) && calm(t) && t.stage
                != CleanupStage::Finished && t.image_name == s.image_name)
        }),
{
    let o = docker(pending(s));
    assert(o is Ran);
    match s.stage {
        CleanupStage::DaemonCheck => {
            assert(pending(s) == info_cmd());
            assert(o matches OutcomeView::Ran { success, .. } && success);
            assert(cleanup_next(s, o).0.buildkit == s.buildkit);
        },
        CleanupStage::ListBuildkit => {
            if let OutcomeView::Ran { stdout, .. } = o {
                lemma_trimmed_len(stdout);
                lemma_lines_len(trimmed(stdout));
            }
        },
        CleanupStage::StopBuildkit(_) => {},
        CleanupStage::RemoveBuildkit(_) => {},
        CleanupStage::FindContainer => {},
        CleanupStage::StopContainer => {},
        CleanupStage::RemoveContainer => {},
        CleanupStage::FindImageById => {},
        CleanupStage::RemoveImageById => {},
        CleanupStage::FindImageByName => {},
        CleanupStage::RemoveImageByName => {},
        CleanupStage::RemoveDefaultImage => {},
        CleanupStage::ListDangling => {},
        CleanupStage::RemoveDangling => {},
        CleanupStage::Prune => {},
        CleanupStage::CountContainers => {},
        CleanupStage::CountImage => {},
        CleanupStage::CountDefaultImage => {},
        CleanupStage::CountDangling => {},
        CleanupStage::ShowContainers => {},
        CleanupStage::ShowImages => {},
        CleanupStage::Finished => {},
    }
}

proof fn lemma_calm_run(s: CleanupView, docker: spec_fn(CommandView) -> OutcomeView)
    requires
        calm(s),
        s.stage != CleanupStage::Finished,
        clean_host(docker, s.image_name),
    ensures
        exists|fuel: nat| drive(s, CleanupActionView::Run(pending(s)), docker, fuel) == Some(
            Ok::<(), CleanupErrorView>(()),
        ),
    decreases cleanup_measure(s).0, cleanup_measure(s).1,
{
    let o = docker(pending(s));
    lemma_calm_step(s, docker);
    law_cleanup_progresses(s, o);
    let (t, _, a) = cleanup_next(s, o);
    if a == CleanupActionView::Done(Ok(())) {
        reveal_with_fuel(drive, 2);
        assert(drive(s, CleanupActionView::Run(pending(s)), docker, 1) == Some(
            Ok::<(), CleanupErrorView>(()),
        ));
    } else {
        lemma_calm_run(t, docker);
        let f = choose|fuel: nat| drive(t, CleanupActionView::Run(pending(t)), docker, fuel) == Some(
            Ok::<(), CleanupErrorView>(()),
        );
        assert(drive(s, CleanupActionView::Run(pending(s)), docker, f + 1) == Some(
            Ok::<(), CleanupErrorView>(()),
        ));
    }
}

/// A cleanup run against a host that is already clean succeeds: so a
/// second cleanup right after a successful one, with nothing changed in
/// between, succeeds too.  On such a host the cleanup may still find and
/// remove BuildKit builders, the test container and the images by id and
/// name; failed removals are reported and ignored.
pub proof fn law_repeat_cleanup_succeeds(
    image_id: Seq<char>,
    container_name: Seq<char>,
    image_name: Seq<char>,
    docker: spec_fn(CommandView) -> OutcomeView,
)
    requires
        clean_host(docker, image_name),
    ensures
        ({
            let (s, _, a) = cleanup_start(image_id, container_name, image_name);
            exists|fuel: nat| drive(s, a, docker, fuel) == Some(Ok::<(), CleanupErrorView>(()))
        }),
{
    let s = cleanup_start(image_id, container_name, image_name).0;
    assert(cleanup_start(image_id, container_name, image_name).2 == CleanupActionView::Run(pending(s)));
    lemma_calm_run(s, docker);
}

/// The cleanup's verdict rests on its four final listings.  From the first
/// of them (all containers), the cleanup asks in turn for the images named
/// like the image, then like the default image, then the dangling images;
/// after the fourth answer it succeeds exactly when none of the four
/// printed anything.  Otherwise, after showing what is left, it fails with
/// the four findings, each true exactly when its listing printed something.
#[verifier::rlimit(40)]
pub proof fn law_final_checks_decide(
    s: CleanupView,
    o1: OutcomeView,
    o2: OutcomeView,
    o3: OutcomeView,
    o4: OutcomeView,
    o5: OutcomeView,
    o6: OutcomeView,
)
    requires
        s.stage == CleanupStage::CountContainers,
    ensures
        ({
            let (t1, _, a1) = cleanup_next(s, o1);
            let (t2, _, a2) = cleanup_next(t1, o2);
            let (t3, _, a3) = cleanup_next(t2, o3);
            let (t4, _, a4) = cleanup_next(t3, o4);
            let (t5, _, a5) = cleanup_next(t4, o5);
            let (_, _, a6) = cleanup_next(t5, o6);
            let found = CleanupActionView::Done(
                Err(
                    CleanupErrorView::Leftovers {
                        containers: printed_something(o1),
                        images: printed_something(o2),
                        default_image: printed_something(o3),
                        dangling: printed_something(o4),
                    },
                ),
            );
            &&& a1 == CleanupActionView::Run(docker(seq!["images"@, "-q"@, s.image_name]))
            &&& a2 == CleanupActionView::Run(docker(seq!["images"@, "-q"@, "docker-test:latest"@]))
            &&& a3 == CleanupActionView::Run(
                docker(seq!["images"@, "-f"@, "dangling=true"@, "-q"@]),
            )
            &&& (a4 == CleanupActionView::Done(Ok(()))) <==> (!printed_something(o1)
                && !printed_something(o2) && !printed_something(o3) && !printed_something(o4))
            &&& a4 != CleanupActionView::Done(Ok(())) ==> (a5 == found || a6 == found)
        }),
{
}

} // verus!
