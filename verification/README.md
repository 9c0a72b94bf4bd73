# Xyra

Xyra is a local-first program that clips games: it keeps a rolling replay buffer, saves the
last seconds of it as clips, plays and cuts them, and publishes them to YouTube and Odysee.

The crate has two parts.

- `src/` is a library of the program's rules, written in Verus. Every function states what it
  returns or changes, and Verus proves it: the arguments that FFmpeg records with, the choice
  of segments for a clip, the state of the recorder, the migration of settings, the sign-in to
  Google, the publishing queue, the names of claims, the player's position, and the texts that
  the user is shown. Public proof functions state what holds across functions.
- `app/` is the desktop program around it: the window, child processes, files, sound devices,
  the credential store and the network. It asks the library what to do and reports back what
  happened.

Where the library calls a crate, or a function of the standard library that Verus knows no
contract of, the call stands in a small function under `src/services/` whose contract says
what is relied on. Three functions of the standard library, on characters, are called directly
under such a contract.

`tests/` runs the library on concrete values.
