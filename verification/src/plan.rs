//! Names, paths and commands derived from the settings.
use vstd::prelude::*;
use crate::command::{arg, arg_owned, docker, docker_with, Command, CommandView};
use crate::text::{append, chars_of, decimal, decimal_string, digit, push_char};

verus! {

/// The image name used when none is configured.
pub fn default_image_name() -> (r: String)
    ensures
        r@ == "docker-test:latest"@,
{
    String::from_str("docker-test:latest")
}

/// The configured image name, or the default one.
pub fn image_name_or_default(configured: Option<String>) -> (r: String)
    ensures
        r@ == match configured {
            Some(n) => n@,
            None => "docker-test:latest"@,
        },
{
    match configured {
        Some(n) => n,
        None => default_image_name(),
    }
}

/// The character that stands for `c` in a container name: `:` and `/`
/// become `_`.
pub open spec fn name_char(c: char) -> char {
    if c == ':' || c == '/' {
        '_'
    } else {
        c
    }
}

/// The container name for an image: the image name with every `:` and `/`
/// replaced by `_`.
pub open spec fn container_name_for(image: Seq<char>) -> Seq<char> {
    image.map_values(|c: char| name_char(c))
}

/// The container name for the image `image`.
pub fn container_name(image: &str) -> (r: String)
    ensures
        r@ == container_name_for(image@),
{
    let v = chars_of(image);
    let mut r = String::new();
    let mut i: usize = 0;
    while i < v.len()
        invariant
            v@ == image@,
            i <= v@.len(),
            r@ == container_name_for(image@.take(i as int)),
        decreases v@.len() - i,
    {
        let c = v[i];
        let d = if c == ':' || c == '/' {
            '_'
        } else {
            c
        };
        push_char(&mut r, d);
        i = i + 1;
        assert(r@ =~= container_name_for(image@.take(i as int)));
    }
    assert(image@.take(i as int) =~= image@);
    r
}

/// A container name never holds `:` or `/`, and has as many characters as
/// the image name it comes from.
pub proof fn law_container_name_is_clean(image: Seq<char>)
    ensures
        container_name_for(image).len() == image.len(),
        forall|i: int|
            0 <= i < image.len() ==> #[trigger] container_name_for(image)[i] != ':'
                && container_name_for(image)[i] != '/',
{
}

/// Deriving a container name from a container name changes nothing.
pub proof fn law_container_name_idempotent(image: Seq<char>)
    ensures
        container_name_for(container_name_for(image)) == container_name_for(image),
{
    assert(container_name_for(container_name_for(image)) =~= container_name_for(image));
}

/// The URL of the health-check endpoint for the path `path`.
pub open spec fn health_url_for(path: Seq<char>) -> Seq<char> {
    "http://localhost:3000"@ + path
}

/// The URL of the health-check endpoint `path` on the published port.
pub fn health_url(path: &str) -> (r: String)
    ensures
        r@ == health_url_for(path@),
{
    let mut r = String::from_str("http://localhost:3000");
    append(&mut r, path);
    r
}

/// The path of the `.dockerignore` file in the build context `context`.
pub open spec fn dockerignore_for(context: Seq<char>) -> Seq<char> {
    context + "/.dockerignore"@
}

/// The path of the `.dockerignore` file in the build context `context`.
pub fn dockerignore_path(context: &str) -> (r: String)
    ensures
        r@ == dockerignore_for(context@),
{
    let mut r = String::from_str(context);
    append(&mut r, "/.dockerignore");
    r
}

/// What `std::path::Path::parent` returns for the path `path`, as text.
pub uninterp spec fn path_parent(path: Seq<char>) -> Option<Seq<char>>;

/// The directory holding `path`, by `std::path::Path::parent`.
///
/// Trusted: the result is `path_parent(path@)`, the name of what the
/// standard library returns, and is `None` for the empty path, as its
/// documentation says.  The parent of a path given as text is a prefix of
/// that text, so its conversion back to text loses nothing.
#[verifier::external_body]
pub(crate) fn parent_dir(path: &str) -> (r: Option<String>)
    ensures
        match r {
            Some(p) => path_parent(path@) == Some(p@),
            None => path_parent(path@) == None::<Seq<char>>,
        },
        path@.len() == 0 ==> r is None,
{
    std::path::Path::new(path).parent().map(|p| p.to_string_lossy().into_owned())
}

// ---------------------------------------------------------------------------
// Commands
// ---------------------------------------------------------------------------

/// `docker version`.
pub open spec fn version_cmd() -> CommandView {
    docker(seq!["version"@])
}

/// Builds `image` from `dockerfile` in the context `context`.
pub open spec fn build_cmd(image: Seq<char>, dockerfile: Seq<char>, context: Seq<char>) -> CommandView {
    docker(seq!["build"@, "-t"@, image, "-f"@, dockerfile, context])
}

/// Prints the full id of `image`.
pub open spec fn image_id_cmd(image: Seq<char>) -> CommandView {
    docker(seq!["images"@, "--no-trunc"@, "--format"@, "{{.ID}}"@, image])
}

/// Lists the listening sockets.
pub open spec fn netstat_cmd() -> CommandView {
    CommandView { program: "netstat"@, args: seq!["-tuln"@] }
}

/// The mapping of the host port onto the container's `port`.
pub open spec fn port_mapping(port: u16) -> Seq<char> {
    "3000:"@ + decimal(port as nat)
}

/// Starts `image` in the background as `container`, publishing `port`.
pub open spec fn run_cmd(image: Seq<char>, container: Seq<char>, port: u16) -> CommandView {
    docker(
        seq![
            "run"@,
            "-d"@,
            "--log-driver"@,
            "json-file"@,
            "--log-opt"@,
            "max-size=10m"@,
            "-e"@,
            "PYTHONUNBUFFERED=1"@,
            "-e"@,
            "PYTHONIOENCODING=utf8"@,
            "--name"@,
            container,
            "-p"@,
            port_mapping(port),
            image,
        ],
    )
}

/// The last hundred lines of the logs of `container`.
pub open spec fn logs_cmd(container: Seq<char>) -> CommandView {
    docker(seq!["logs"@, "--tail"@, "100"@, container])
}

/// Whether the `netstat` listing shows the host port in use.
pub open spec fn port_taken(listing: Seq<char>) -> bool {
    crate::text::occurs_in(listing, ":3000"@)
}

/// `docker version`.
pub fn version_command() -> (c: Command)
    ensures
        c@ == version_cmd(),
{
    let mut v: Vec<String> = Vec::new();
    arg(&mut v, "version");
    assert(v.deep_view() =~= version_cmd().args);
    docker_with(v)
}

/// `docker info`.
pub fn info_command() -> (c: Command)
    ensures
        c@ == crate::cleanup::info_cmd(),
{
    let mut v: Vec<String> = Vec::new();
    arg(&mut v, "info");
    assert(v.deep_view() =~= crate::cleanup::info_cmd().args);
    docker_with(v)
}

/// The build command for `image`.
pub fn build_command(image: &str, dockerfile: &str, context: &str) -> (c: Command)
    ensures
        c@ == build_cmd(image@, dockerfile@, context@),
{
    let mut v: Vec<String> = Vec::new();
    arg(&mut v, "build");
    arg(&mut v, "-t");
    arg(&mut v, image);
    arg(&mut v, "-f");
    arg(&mut v, dockerfile);
    arg(&mut v, context);
    assert(v.deep_view() =~= build_cmd(image@, dockerfile@, context@).args);
    docker_with(v)
}

/// The image-id query for `image`.
pub fn image_id_command(image: &str) -> (c: Command)
    ensures
        c@ == image_id_cmd(image@),
{
    let mut v: Vec<String> = Vec::new();
    arg(&mut v, "images");
    arg(&mut v, "--no-trunc");
    arg(&mut v, "--format");
    arg(&mut v, "{{.ID}}");
    arg(&mut v, image);
    assert(v.deep_view() =~= image_id_cmd(image@).args);
    docker_with(v)
}

/// The socket listing.
pub fn netstat_command() -> (c: Command)
    ensures
        c@ == netstat_cmd(),
{
    let mut v: Vec<String> = Vec::new();
    arg(&mut v, "-tuln");
    assert(v.deep_view() =~= netstat_cmd().args);
    Command { program: String::from_str("netstat"), args: v }
}

/// The command that starts the container.
pub fn run_command(image: &str, container: &str, port: u16) -> (c: Command)
    ensures
        c@ == run_cmd(image@, container@, port),
{
    let mut v: Vec<String> = Vec::new();
    arg(&mut v, "run");
    arg(&mut v, "-d");
    arg(&mut v, "--log-driver");
    arg(&mut v, "json-file");
    arg(&mut v, "--log-opt");
    arg(&mut v, "max-size=10m");
    arg(&mut v, "-e");
    arg(&mut v, "PYTHONUNBUFFERED=1");
    arg(&mut v, "-e");
    arg(&mut v, "PYTHONIOENCODING=utf8");
    arg(&mut v, "--name");
    arg(&mut v, container);
    arg(&mut v, "-p");
    let mut mapping = String::from_str("3000:");
    let p = decimal_string(port as u64);
    append(&mut mapping, p.as_str());
    arg_owned(&mut v, mapping);
    arg(&mut v, image);
    assert(v.deep_view() =~= run_cmd(image@, container@, port).args);
    docker_with(v)
}

/// The log query for `container`.
pub fn logs_command(container: &str) -> (c: Command)
    ensures
        c@ == logs_cmd(container@),
{
    let mut v: Vec<String> = Vec::new();
    arg(&mut v, "logs");
    arg(&mut v, "--tail");
    arg(&mut v, "100");
    arg(&mut v, container);
    assert(v.deep_view() =~= logs_cmd(container@).args);
    docker_with(v)
}

/// `docker rm -f <container>`.
pub fn rm_command(container: &str) -> (c: Command)
    ensures
        c@ == crate::cleanup::rm_cmd(container@),
{
    let mut v: Vec<String> = Vec::new();
    arg(&mut v, "rm");
    arg(&mut v, "-f");
    arg(&mut v, container);
    assert(v.deep_view() =~= crate::cleanup::rm_cmd(container@).args);
    docker_with(v)
}

/// Whether the `netstat` listing shows the host port in use.
pub fn port_in_use(listing: &str) -> (r: bool)
    ensures
        r == port_taken(listing@),
{
    crate::text::contains(listing, ":3000")
}

/// All characters of `s` are decimal digits.
pub open spec fn all_digits(s: Seq<char>) -> bool {
    forall|i: int| 0 <= i < s.len() ==> 48 <= #[trigger] (s[i] as u32) <= 57
}

/// The number that the decimal digits `s` stand for.
pub open spec fn digits_value(s: Seq<char>) -> int
    decreases s.len(),
{
    if s.len() == 0 {
        0
    } else {
        digits_value(s.drop_last()) * 10 + (s.last() as u32 - 48)
    }
}

/// The decimal rendering of `n` is a non-empty string of digits that reads
/// back as `n`.
pub proof fn law_decimal_reads_back(n: nat)
    ensures
        decimal(n).len() > 0,
        all_digits(decimal(n)),
        digits_value(decimal(n)) == n,
    decreases n,
{
    let d = (n % 10) as nat;
    assert(digit(d) as u32 == d + 48);
    let s = decimal(n);
    if n < 10 {
        assert(s.drop_last() =~= Seq::<char>::empty());
        assert(digits_value(s.drop_last()) == 0);
        assert(s.last() == digit(n));
    } else {
        law_decimal_reads_back(n / 10);
        assert(s.drop_last() == decimal(n / 10));
        assert(s.last() == digit(d));
        assert(digits_value(s) == digits_value(decimal(n / 10)) * 10 + d);
        assert((n / 10) * 10 + n % 10 == n);
        assert forall|i: int| 0 <= i < s.len() implies 48 <= #[trigger] (s[i] as u32) <= 57 by {
            if i < s.len() - 1 {
                assert(s[i] == decimal(n / 10)[i]);
            }
        }
    }
}

/// The container is published on host port 3000 from the port given: the
/// argument after `-p` is `3000:` followed by the decimal digits of `port`.
pub proof fn law_run_publishes_port(image: Seq<char>, container: Seq<char>, port: u16)
    ensures
        run_cmd(image, container, port).program == "docker"@,
        run_cmd(image, container, port).args.len() == 15,
        run_cmd(image, container, port).args[0] == "run"@,
        run_cmd(image, container, port).args[11] == container,
        run_cmd(image, container, port).args[12] == "-p"@,
        run_cmd(image, container, port).args[14] == image,
        exists|d: Seq<char>|
            run_cmd(image, container, port).args[13] == "3000:"@ + d && all_digits(d)
                && digits_value(d) == port as int,
{
    law_decimal_reads_back(port as nat);
    assert(run_cmd(image, container, port).args[13] == "3000:"@ + decimal(port as nat));
}

} // verus!
