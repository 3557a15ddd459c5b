# openstack_tui

The verified core of a terminal client for OpenStack clouds.

- `src/` holds the library, verified with Verus: reading key presses as
  navigation, authorization scopes and the scoping of cloud profiles, the SSH
  user prompt, the remote console request, the identity projects view, and the
  decisions of the cloud worker (what to do for each message, what to answer
  when that fails, when to authorize again, how prompts for credentials are
  settled).
- `app/` holds what talks to the terminal and to the cloud: conversions from
  the terminal's key events and the SDK's types, drawing, reading the
  environment, and the asynchronous worker loop that runs the library's
  decisions.
- `tests/` exercises the library on concrete values.
