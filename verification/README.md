# lkmv

Linux Kernel Maintainer Verification: the verified core of the LKMV tools.

`src/` is a Verus library. It holds the data model and the decisions of the
tools, each function with a contract that Verus proves:

- `message_type`: DIDComm message types, their names and type URLs.
- `relationships`: relationship message bodies and how an automated
  maintainer answers inbound messages.
- `crypto`, `backup`, `secured_config`: how configuration is encrypted,
  encoded, exported and imported again.
- `recovery_phrase`: the BIP39 recovery phrase of a profile.
- `config`, `logs`, `tasks`: profile settings, the bounded log and the task
  list.
- `persona_keys`: picking the persona DID's keys and their key information.
- `vrc_tasks`: what the user's answers do to VRC requests and issued VRCs,
  the fields of a VRC issued in answer to a request, and the index of all
  issued and received VRCs by VRC ID.
- `keyed`: values kept by text key, at most one per key.
- `text`: trimming typed text (Unicode white space), blank meaning no answer.
- `page_text`: the lines of the token list and derived-keys pages.
- `setup_flow`, `setup_page`, `main_page`, `state`, `state_handler`: the pages
  of the terminal application, what key presses do on them, and how actions
  change the application state.

Calls into outside crates (SHA-256, base64, AES-256-GCM, BIP39, the clock and
the random number generator) go through small trusted wrappers whose
contracts state what the crates' documentation promises.

`app/` is ordinary Rust around the library: JSON records of its types, the
configuration files on disk, console output and the state handler's loop.

`tests/` holds the tests.
