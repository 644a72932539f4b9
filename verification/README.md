# vector_store

The verified core of a vector store.

- `text`: numbers as decimal text, and back.
- `types`: names, identifiers and index settings.
- `config`: the settings that the service starts with.
- `db_index`: the statements that read an index's rows from the database.
- `fts`: the statements and results of full-text search.
- `opensearch`: indexes that OpenSearch keeps.
- `cuvs`: the GPU index. `params` checks its parameters, `index` keeps its
  vectors and the tokens of writes that wait for a build, `device` lays out
  matrices in device memory and says which device operations create, fill and
  read them, `worker` decides what each request does, `factory` creates indexes.

`app/` is the service around the library: it reads the environment, talks to the
database, to OpenSearch and to the GPU, and runs the actors.
