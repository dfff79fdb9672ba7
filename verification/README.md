# refraction_rdp

A remote-desktop helper that gives each desktop session (a streaming host or
client) its own WireGuard interface inside a private network namespace. A
privileged service creates and configures the interface and moves it into the
namespace of the session that asked for it over a Unix socket.

- `src/` is the verified library: the commands that are run (`command`), the order
  of the setup steps and how each outcome is reported (`plans`, `sequence`,
  `status`), the request protocol between a session and the service (`request`),
  decimal rendering and parsing (`decimal`), the service's configuration read from
  an INI file (`config`), and the OS error code (`errno`).
- `app/` holds the processes, sockets, system calls and program entry points that
  perform the outside work the library decides on.
- `tests/` exercises the library on concrete values.
