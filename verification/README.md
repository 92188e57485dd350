# fluxvm

The logic of a virtual-machine host and of the fleet around it, as a verified library.

| Module | What it decides |
| --- | --- |
| `api` | who may ask a node for what, tenants and quotas, token checks, metrics, the route table |
| `cgroup` | reading and writing the control files of cgroup v2 |
| `cli` | the help screen, the status panel and the settings of commands |
| `cloud_hypervisor` | the command lines of Cloud Hypervisor, growth, snapshots and migration |
| `container` | containers in a guest: wire protocol, OCI configuration, processes, streams, limits |
| `fleet` | registered nodes, placement, the registry's answers and its client |
| `sandbox_index` | which node runs which sandbox |
| `json`, `text`, `keyed`, `labels`, `token`, `vm` | what the others share |

Every function in `src/` has a contract that Verus proves. What a module does to the
outside world it returns as a value: a file to write, a request to send, a step to take.
`app/` is the program around the library. It performs those steps and hands the outcomes
back. Functions whose names begin with `law_` state what holds across several functions.

Calls into other crates stand behind small functions marked `external_body`. Their
contracts are believed, and their comments say what is claimed of the outside function.

`tests/` runs the library on concrete values.
