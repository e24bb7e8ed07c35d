# wnf

Bindings for the Windows Notification Facility (WNF), a registrationless publisher/subscriber mechanism of Windows,
whose core is verified with Verus.

The Windows Notification Facility is reached through a handful of functions of `ntdll.dll`. Around these calls sit
the decisions that make the bindings safe and convenient: how state names are encoded, how state data are read as
typed values and written from them, how a query is retried with a larger buffer while the data do not fit, how an
update conditional on a change stamp is repeated until it goes through, when a subscription's context may be
released, and how a program reruns itself under the `LocalSystem` account. These decisions form the library in
`src/`, where each function has a contract proved by Verus. The calls themselves are made by the crate in `app/`.

## Layout

- `src/` — the verified library
  - `state_name`, `type_id`, `data`, `change_stamp`: state names and their descriptors, GUIDs and type ids, change
    stamps and stamped data
  - `bytes`, `read`: encoding values as bytes and reading values, boxed values, slices and opaque data from bytes,
    either from a buffer or through a reader that is retried with a growing buffer
  - `raw_state`, `error`: the operations on a state, each as a request to make and a decision on the reply
  - `manage`: the builder that yields the request to create a state
  - `subscribe`, `subscription`, `callback`, `predicate`: subscribing, unsubscribing, listeners and waiting until a
    predicate holds
  - `wide_string`, `admin_process`, `system_runner`: null-terminated UTF-16 strings, command lines for processes
    spawned as Administrator, and the stages of rerunning a program under the `LocalSystem` account
- `app/` — the calls into the Windows API, the loops around them, creating states, owned and borrowed states, subscriptions with their
  callback, waiting blocking or asynchronously, security descriptors, and the process and pipe handling of the
  system runner
- `tests/` — tests of the library
