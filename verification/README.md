# grid-operator

Decision logic of an operator for inference providers, verified with Verus, and
the ordinary Rust that runs it against a Kubernetes cluster.

The operator does two things:

- It reconciles `InferenceProvider` resources: it validates the configuration,
  checks credentials and the grid network, lists the sites that the provider
  selects, probes the provider's health, and writes phase, matching sites and
  reason to the status.
- It polls the model lists of providers that have model discovery configured,
  and writes the discovered models to the status.

## Layout

`src/` is the verified library. Nothing in it waits, sends or writes.

| Module | Content |
|--------|---------|
| `resource` | Providers, sites and statuses, with a mathematical view of each |
| `phase` | Static validation, probe outcomes, phases |
| `sites` | Site selection by network and labels |
| `probe` | Probe URL, timeout, admission, outcome, requeue interval |
| `resolve` | The questions of a reconciliation and what the answers mean |
| `status` | The status to write, and when to write it |
| `discovery` | Model-list URL, response normalization, failures |
| `poll` | The course of one model-list poll |
| `poller` | Watched providers, due rounds, recorded results |
| `name_map`, `ordering`, `text`, `duration` | Data that the others build on |
| `uri`, `clock` | Calls into `http` and `time`, with the contracts that are taken on trust |

Proof functions whose names begin with `law_` state what holds of the library
as a whole.

`app/` holds the Kubernetes resources with their serialized form, the API calls,
the HTTP client and the loops. What it needs from the platform around it
(credentials, TLS material, connectors, shutdown) is the trait `Platform`.

`tests/` runs the library.
