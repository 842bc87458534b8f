# hbb_common

The configuration of a remote desktop that works in the local network only: what is stored, who
gets access, which hosts are trusted, and what the user has chosen.

The library in `src/` is written in Verus. It does no input or output and holds no state of its
own: its functions take what was read and give back what is to be stored, and each says in its
contract exactly what that is. Functions whose names begin with `law_` state what holds of several
functions together.

| module | what it is about |
| --- | --- |
| `config`, `config2` | the main configuration, its options, keys and trusted hosts |
| `credentials` | the name and the password for access |
| `permanent_password`, `storage` | the permanent password and how secrets are stored |
| `local_config` | hosts that were connected to, identities, options of the user interface |
| `discovery` | hosts that were found, and whether they are there |
| `peer_config`, `peer_flags`, `peer_files` | what is kept for each host, and in which file |
| `user_defaults`, `options`, `keys` | options, their layers and their defaults |
| `address_book`, `status`, `limits` | smaller things that are kept |
| `paths`, `sh` | the names of files, channels and commands |
| `text`, `text_map`, `ranking` | texts, maps from texts, and orders |
| `outside` | what is taken for granted of other crates |

`app/` is the part around it: files, locks, clocks and the formats of the files. What the rest of
the program has to provide, such as sealing secrets, is the trait `Host` there.
