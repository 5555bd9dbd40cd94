# ot-gitlab-tools

Verified core of three small tools around GitLab and git-cliff:

- a changelog enhancer that adds the merge request of each commit to a
  git-cliff context (and the same as a git-cliff changelog modifier),
- a GitLab command line tool for merge request discussions, labels, projects,
  users and todos,
- a git-cliff wrapper that installs a built-in configuration.

`src/` holds the verified library (Verus): merge request selection, the
git-cliff context types, merge request references and decimal numbers,
discussion selection, todo planning, API URLs and the decisions of the
wrapper. `tests/` exercises it. `app/` holds the programs: command line
parsing, HTTP requests, JSON (de)serialization and file access.
