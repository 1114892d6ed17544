# luksbox_gui

The rules behind a desktop program for encrypted vaults, verified with Verus.

What the program may do to a vault (create it, unlock it, add and revoke
keyslots, rotate its master key, destroy it) is decided in `src/` and carried out
in `app/`. An operation is a *script*: a list of acts, each with what follows if
it goes well and what is undone if it does not. A *job* walks through a script:
it names the next act, is told how the act went, and goes on. The scripts, the
job and everything that is worked out from plain values have contracts that
Verus proves; the calls into the vault crates, the key hardware, the file system
and the window toolkit are in `app/`.

## Layout

- `src/script.rs`: acts, scripts and jobs, and what holds of every script.
- `src/create.rs`, `bootstrap.rs`, `bootstrap_flow.rs`, `enroll.rs`, `rotate.rs`,
  `destroy.rs`: the scripts that change a vault.
- `src/unlock.rs`, `unlock_search.rs`, `unlock_sep.rs`, `unlock_deniable.rs`: the
  phases of an unlock.
- `src/bootstrap_laws.rs`, `bootstrap_slots.rs`, `enroll_laws.rs`, `seed_laws.rs`,
  `unlock_laws.rs`: what holds of whole families of scripts.
- `src/extract_laws.rs`: what holds of a copy, and of an extraction, as a whole.
- `src/kinds.rs`, `requests.rs`, `slots.rs`, `sidecar.rs`, `devices.rs`,
  `opened.rs`: what the scripts are about.
- `src/forms.rs`, `unlock_form.rs`, `offers.rs`, `dialogs.rs`, `session.rs`: what
  the user is offered, what a filled form asks for, and how the session moves on.
- `src/extract.rs`, `listing.rs`, `paths.rs`, `recent.rs`, `preferences.rs`,
  `host.rs`, `icon.rs`: files in and around a vault.
- `src/passgen.rs`, `strength.rs`, `clipboard_guard.rs`: passphrases, from drawing
  one to wiping it off the clipboard.
- `src/clock.rs`, `text.rs`: time and text.
- `tests/`: the library from outside.
- `app/`: the program around the library.

The functions named `law_..` state what holds across operations: that a TPM
bootstrap which fails leaves no vault behind, that a taken path is left alone, that
the seed file is read as it was written, that a hybrid enroll which fails changes
nothing, that an unlock changes no file, that a vault older than its anchor stays
closed, that a lent vault comes back, that a file copied into a vault and out of it
again, by a file system that keeps what is written, is the same.

What is taken on trust is marked `external_body` or `assume_specification`, and
says above it which outside function it stands for and what is claimed of it.
