# Sammy core

The verified core of Sammy, an encryption-first, local-first personal
companion: vault key handling and recovery codes, the backup package format,
routing of chat turns between local and cloud models with consent, the
read-only gateway to a personal knowledge corpus and what of it may reach a
model, knowledge and memory lifecycles, corpus packages, source text
extraction, prompt assembly, and the inactivity lock.

- `src/` is the library, written in Verus: each public function states its
  behaviour in `requires`/`ensures`, and the laws that relate several
  functions are proof functions (`lemma_*`).
- `tests/` exercises the library on concrete values.
- `app/` is the ordinary Rust around it: the vault database (SQLite), files,
  child processes, HTTP, floating-point retrieval scores, and the command
  surface of the user interface.
