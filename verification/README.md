# podtest

Builds a Docker image, runs it as a container, probes the container's
health-check endpoint and cleans up: containers, images, BuildKit builders
and dangling images. A hot-fix mode only builds the image.

The decisions are a verified Verus library (`src/`):

- `text` – trimming, line splitting, searching, decimal numbers, centring.
- `report` – console lines, their colours, the section banner.
- `command` – commands to run and their outcomes.
- `plan` – container name, URLs, paths and the exact commands.
- `resources` – disk and memory warnings.
- `health` – the health-check state machine.
- `cleanup` – the cleanup state machine.
- `session` – a whole run as a state machine that embeds the two above.

Each state machine takes the outcome of the last operation and returns the
lines to print and the next operation. The program in `app/` carries out
the operations (processes, files, HTTP, timers) and prints the lines.
