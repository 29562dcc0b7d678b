# job_scraper

A service that runs browser-automation jobs: a job is a list of actions (navigate, click,
type, fill, scroll, extract, ...) that a headless Chromium performs, keeping extracted values
under result keys. An HTTP API creates and reads jobs; an executor runs them; jobs are stored
in DynamoDB with large payloads offloaded to S3.

## Layout

- `src/` is the library, verified with Verus. It holds the job lifecycle (`job`), the
  actions and settings (`job_action`, `job_config`), the planning of each browser
  step and the run of a job's actions in order (`scraper`), the results and their JSON form
  (`results`), the execution decisions (`use_cases`), the storage layout of a job
  (`repository`), the HTTP decisions (`api_response`, `auth`, `http`), the Wallapop
  publishing job and its cookie parsing (`run_job`), text helpers (`text`) and the calls into
  `uuid`, `chrono`, `serde_json` and std formatting (`external`).
- `app/` is the program around it: serde forms of the library's types, the async ports and
  their adapters (DynamoDB/S3, Chromium through chromiumoxide, JSON), the use cases that await
  them, the axum routes and the Lambda entry points.
- `tests/` exercise the library on concrete values.
