# folsec-auditor

An NTFS and ACL risk auditor for file servers. It scans a directory tree, reads
the access control list of each directory, and writes a self-contained HTML report
and, on request, a dry-run PowerShell script.

The rules of the auditor are a library that is verified with Verus:

| Module        | What it holds                                                       |
|---------------|---------------------------------------------------------------------|
| `scanner`     | Descriptors become findings; findings are ranked and summed up       |
| `remediation` | The dry-run script: its blocks, its comments and what it never does  |
| `reporter`    | The HTML report, with the data embedded as JSON                      |
| `simulator`   | The steps of the anomaly simulation, and its finding                 |
| `cli`         | What the command line says and understands                           |
| `errors`      | Typed errors and their messages                                      |
| `clock`       | The time of day, written by `chrono`                                 |
| `lines`, `text`, `order` | Texts, numbers and sorting                                |

`app/` is the program around it: arguments, walking directories on all cores,
Win32 calls and files. It reads access control lists on Windows; elsewhere the
report comes out without findings.
